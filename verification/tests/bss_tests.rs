use ochami_rs::bss::{find_boot_params_related_to_node, replace_marked, BootParameters};
use ochami_rs::error::Error;

const OLD: &str = "4bf91021-8d99-4adf-945f-46de2ff50a3d";
const NEW: &str = "59e0180a-3fdd-4936-bba7-14ba914ffd34";

fn boot(params: &str, kernel: &str) -> BootParameters {
    BootParameters::new(vec!["x1000c0s0b0n0"], None, None, params, kernel, "", None).unwrap()
}

#[test]
fn boot_parameters_are_made_from_texts() {
    let b = BootParameters::new(
        vec!["x1000c0s0b0n0", "x1000c0s0b0n1"],
        Some(vec!["00:40:a6:00:00:01"]),
        Some(vec!["1", "+2", "003"]),
        "quiet",
        "s3://boot-images/a/kernel",
        "s3://boot-images/a/initrd",
        Some("meta"),
    )
    .unwrap();
    assert_eq!(b.hosts, vec!["x1000c0s0b0n0", "x1000c0s0b0n1"]);
    assert_eq!(b.macs, Some(vec!["00:40:a6:00:00:01".to_string()]));
    assert_eq!(b.nids, Some(vec![1, 2, 3]));
    assert_eq!(b.params, "quiet");
    assert_eq!(b.kernel, "s3://boot-images/a/kernel");
    assert_eq!(b.initrd, "s3://boot-images/a/initrd");
    assert_eq!(b.cloud_init, Some(serde_json::Value::String("meta".to_string())));
}

#[test]
fn a_nid_that_is_no_number_is_refused() {
    for bad in ["one", "", "-1", "4294967296", "1.5"] {
        let r = BootParameters::new(vec![], None, Some(vec!["1", bad]), "", "", "", None);
        assert!(matches!(r, Err(Error::InputError(_))), "{:?}", bad);
    }
    let r = BootParameters::new(vec![], None, Some(vec!["4294967295"]), "", "", "", None).unwrap();
    assert_eq!(r.nids, Some(vec![u32::MAX]));
}

#[test]
fn the_image_of_a_kernel_path() {
    assert_eq!(boot("", &format!("s3://boot-images/{}/kernel", OLD)).get_boot_image(), OLD);
    assert_eq!(boot("", "s3://boot-images/a/b/kernel").get_boot_image(), "a/b");
    assert_eq!(boot("", "s3://boot-images/a/b/kernel/c").get_boot_image(), "a/b");
    assert_eq!(boot("", "s3://boot-images/a").get_boot_image(), "a");
    assert_eq!(boot("", "s3://boot-images/kernel/x").get_boot_image(), "kernel/x");
    assert_eq!(boot("", "s3://boot-images").get_boot_image(), "");
    assert_eq!(boot("", "").get_boot_image(), "");
    assert_eq!(boot("", "a/b/c//kernel").get_boot_image(), "");
    assert_eq!(boot("", "a/b/c//d/kernel").get_boot_image(), "/d");
}

#[test]
fn kernel_parameters_are_looked_up() {
    let b = boot("console=ttyS0,115200 quiet root=live:LABEL=SQFSRAID quiet=2", "");
    assert_eq!(b.get_kernel_param_value("console"), Some("ttyS0,115200".to_string()));
    assert_eq!(b.get_kernel_param_value("quiet"), Some("2".to_string()));
    assert_eq!(b.get_kernel_param_value("root"), Some("live:LABEL=SQFSRAID".to_string()));
    assert_eq!(b.get_kernel_param_value("rd"), None);
    assert_eq!(b.get_num_kernel_params(), 3);
    assert_eq!(boot("", "").get_num_kernel_params(), 0);
}

#[test]
fn a_kernel_parameter_is_updated_where_it_exists() {
    let mut b = boot("a=1  b=2 quiet", "");
    assert!(b.update_kernel_param("b", "3"));
    assert_eq!(b.params, "a=1 b=3 quiet");
    assert!(b.update_kernel_param("quiet", "yes"));
    assert_eq!(b.params, "a=1 b=3 quiet=yes");
    assert!(b.update_kernel_param("a", "1"));
    assert_eq!(b.params, "a=1 b=3 quiet=yes");
    assert!(!b.update_kernel_param("c", "9"));
    assert_eq!(b.params, "a=1 b=3 quiet=yes");
    let mut spaced = boot("  a=1   b  ", "");
    assert!(!spaced.update_kernel_param("c", "9"));
    assert_eq!(spaced.params, "a=1 b");
}

#[test]
fn a_kernel_parameter_is_added_unless_it_exists() {
    let mut b = boot("a=1  b=2", "");
    assert!(b.add_kernel_param("c", "3"));
    assert_eq!(b.params, "a=1 b=2 c=3");
    assert!(b.add_kernel_param("quiet", ""));
    assert_eq!(b.params, "a=1 b=2 c=3 quiet");
    let mut untouched = boot("a=1  b=2", "");
    assert!(!untouched.add_kernel_param("a", "5"));
    assert_eq!(untouched.params, "a=1  b=2");
}

#[test]
fn a_kernel_parameter_is_deleted() {
    let mut b = boot("a=1 b=2 c", "");
    assert!(b.delete_kernel_param("b"));
    assert_eq!(b.params, "a=1 c");
    assert!(!b.delete_kernel_param("b"));
    assert_eq!(b.params, "a=1 c");
    assert!(b.delete_kernel_param("c"));
    assert!(b.delete_kernel_param("a"));
    assert_eq!(b.params, "");
}

#[test]
fn kernel_parameters_are_replaced() {
    let mut b = boot("a=1 b=2", "");
    assert!(b.apply_kernel_params("a=1 b=3"));
    assert_eq!(b.params, "a=1 b=3");
    assert!(!b.apply_kernel_params("b=3   a=1"));
    assert_eq!(b.params, "b=3 a=1");
    assert!(b.apply_kernel_params("a=1"));
    assert_eq!(b.params, "a=1");
    assert!(b.apply_kernel_params("a=1 c=2"));
    assert_eq!(b.params, "a=1 c=2");
    assert!(!b.apply_kernel_params("x=1 y=2"));
    assert_eq!(b.params, "x=1 y=2");
    assert!(!b.apply_kernel_params("x=1 x=1"));
    assert_eq!(b.params, "x=1 x=1");
    assert!(!b.apply_kernel_params("x=1"));
    assert_eq!(b.params, "x=1");
    assert!(b.apply_kernel_params("x=2 x=1"));
    assert_eq!(b.params, "x=2 x=1");
}

#[test]
fn the_image_is_replaced_everywhere() {
    let mut b = boot(
        &format!(
            "console=ttyS0 root=craycps-s3:s3://boot-images/{}/rootfs:etag nmd_data=url=s3://boot-images/{}/rootfs,etag=x quiet",
            OLD, OLD
        ),
        &format!("s3://boot-images/{}/kernel", OLD),
    );
    assert_eq!(b.update_boot_image(NEW).unwrap(), true);
    assert_eq!(
        b.params,
        format!(
            "console=ttyS0 root=craycps-s3:s3://boot-images/{}/rootfs:etag nmd_data=url=s3://boot-images/{}/rootfs,etag=x quiet",
            NEW, NEW
        )
    );
    assert_eq!(b.kernel, format!("s3://boot-images/{}/kernel", NEW));
    assert_eq!(b.initrd, format!("s3://boot-images/{}/initrd", NEW));
    assert_eq!(b.get_boot_image(), NEW);
}

#[test]
fn the_same_image_in_root_is_no_change() {
    let mut b = boot(&format!("root=s3://boot-images/{}/rootfs", NEW), "");
    assert_eq!(b.update_boot_image(NEW).unwrap(), false);
    assert_eq!(b.params, format!("root=s3://boot-images/{}/rootfs", NEW));
    assert_eq!(b.kernel, format!("s3://boot-images/{}/kernel", NEW));
}

#[test]
fn an_image_in_metal_server_always_counts_as_a_change() {
    let mut b = boot(
        &format!("root=live:LABEL=SQFSRAID metal.server=s3://boot-images/{}/rootfs", NEW),
        "",
    );
    assert_eq!(b.update_boot_image(NEW).unwrap(), true);
    assert_eq!(
        b.params,
        format!("root=live:LABEL=SQFSRAID metal.server=s3://boot-images/{}/rootfs", NEW)
    );
}

#[test]
fn without_root_the_image_is_not_replaced() {
    let mut b = boot("console=ttyS0 quiet", "s3://boot-images/a/kernel");
    match b.update_boot_image(NEW) {
        Err(Error::InputError(m)) => {
            assert_eq!(m, "ERROR - The 'root' kernel param is missing from user input")
        }
        other => panic!("unexpected: {:?}", other),
    }
    assert_eq!(b.params, "console=ttyS0 quiet");
    assert_eq!(b.kernel, "s3://boot-images/a/kernel");
}

#[test]
fn marked_parts_are_replaced() {
    let parts = vec!["a".to_string(), "b".to_string(), "c".to_string()];
    assert_eq!(
        replace_marked(&parts, &vec![false, true, false], "x"),
        (vec!["a".to_string(), "x".to_string(), "c".to_string()], true, true)
    );
    assert_eq!(replace_marked(&parts, &vec![false, true], "b"), (parts.clone(), true, false));
    assert_eq!(replace_marked(&parts, &vec![], "x"), (parts.clone(), false, false));
    assert_eq!(
        replace_marked(&parts, &vec![true, true, true, true], "c"),
        (vec!["c".to_string(), "c".to_string(), "c".to_string()], true, true)
    );
}

#[test]
fn boot_parameters_are_found_by_host() {
    let list = vec![
        BootParameters::new(vec!["x1", "x2"], None, None, "first", "", "", None).unwrap(),
        BootParameters::new(vec!["x3"], None, None, "second", "", "", None).unwrap(),
        BootParameters::new(vec!["x2"], None, None, "third", "", "", None).unwrap(),
    ];
    assert_eq!(find_boot_params_related_to_node(&list, &"x2".to_string()).unwrap().params, "first");
    assert_eq!(find_boot_params_related_to_node(&list, &"x3".to_string()).unwrap().params, "second");
    assert!(find_boot_params_related_to_node(&list, &"x4".to_string()).is_none());
    assert!(find_boot_params_related_to_node(&[], &"x1".to_string()).is_none());
}
