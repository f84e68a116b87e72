use ochami_rs::inventory::{
    ArtifactSummary, ArtifactType, HWInvByFRUMemory, HWInvByFRUProcessor, HWInvByLocHSNNIC,
    HWInvByLocMemory, HWInvByLocNode, HWInvByLocNodeAccel, HWInvByLocProcessor, HSNNICLocationInfo,
    NodeSummary, RedfishMemoryFRUInfo, RedfishMemoryLocationInfo, RedfishProcessorFRUInfo,
    RedfishProcessorLocationInfo,
};

const KINDS: [(ArtifactType, &str); 12] = [
    (ArtifactType::Memory, "Memory"),
    (ArtifactType::Processor, "Processor"),
    (ArtifactType::NodeAccel, "NodeAccel"),
    (ArtifactType::NodeHsnNic, "NodeHsnNic"),
    (ArtifactType::Drive, "Drive"),
    (ArtifactType::CabinetPDU, "CabinetPDU"),
    (ArtifactType::CabinetPDUPowerConnector, "CabinetPDUPowerConnector"),
    (ArtifactType::CMMRectifier, "CMMRectifier"),
    (ArtifactType::NodeAccelRiser, "NodeAccelRiser"),
    (ArtifactType::NodeEnclosurePowerSupplie, "NodeEnclosurePowerSupplie"),
    (ArtifactType::NodeBMC, "NodeBMC"),
    (ArtifactType::RouterBMC, "RouterBMC"),
];

fn summary(xname: &str, kind: ArtifactType, info: Option<&str>) -> ArtifactSummary {
    ArtifactSummary { xname: xname.to_string(), kind, info: info.map(|i| i.to_string()) }
}

fn processor(id: &str, kind: Option<&str>, model: Option<&str>) -> HWInvByLocProcessor {
    HWInvByLocProcessor {
        id: id.to_string(),
        kind: kind.map(|k| k.to_string()),
        ordinal: Some(0),
        status: Some("Populated".to_string()),
        hw_inventory_by_location_type: "HWInvByLocProcessor".to_string(),
        populated_fru: Some(HWInvByFRUProcessor {
            fru_id: None,
            kind: None,
            fru_sub_type: None,
            hw_inventory_by_fru_type: "HWInvByFRUProcessor".to_string(),
            processor_fru_info: RedfishProcessorFRUInfo {
                instruction_set: None,
                manufacturer: None,
                max_speed_mhz: None,
                model: model.map(|m| m.to_string()),
                processor_architecture: None,
                processor_id: None,
                processor_type: None,
                total_cores: None,
                total_threads: None,
            },
        }),
        processor_location_info: RedfishProcessorLocationInfo {
            id: None,
            name: None,
            description: None,
            socket: None,
        },
    }
}

fn memory(id: &str, kind: Option<&str>, capacity_mib: Option<usize>) -> HWInvByLocMemory {
    HWInvByLocMemory {
        id: id.to_string(),
        kind: kind.map(|k| k.to_string()),
        ordinal: None,
        status: None,
        hw_inventory_by_location_type: "HWInvByLocMemory".to_string(),
        populated_fru: Some(HWInvByFRUMemory {
            fru_id: None,
            kind: None,
            fru_sub_type: None,
            hw_inventory_by_fru_type: "HWInvByFRUMemory".to_string(),
            memory_fru_info: RedfishMemoryFRUInfo {
                base_module_type: None,
                bus_width_bits: None,
                capacity_mib,
                data_width_bits: None,
                error_correction: None,
                manufacturer: None,
                memory_type: None,
                memory_device_type: None,
                operating_speed_mhz: None,
                part_number: None,
                rank_count: None,
                serial_number: None,
            },
        }),
        memory_location_info: RedfishMemoryLocationInfo {
            id: None,
            name: None,
            description: None,
            memory_location: None,
        },
    }
}

#[test]
fn every_kind_has_its_name() {
    for (kind, name) in KINDS {
        assert_eq!(kind.name(), name);
        assert_eq!(ArtifactType::parse(name), Some(kind));
    }
    assert_eq!(ArtifactType::parse("memory"), None);
    assert_eq!(ArtifactType::parse(""), None);
    assert_eq!(ArtifactType::parse("Node"), None);
    assert_eq!(ArtifactType::parse("NodeBMC "), None);
}

#[test]
fn a_processor_is_summed_up_by_its_model() {
    let s = ArtifactSummary::from_processor(processor("x1000c0s0b0n0p0", Some("Processor"), Some("EPYC")))
        .unwrap();
    assert_eq!(s.xname, "x1000c0s0b0n0p0");
    assert_eq!(s.kind, ArtifactType::Processor);
    assert_eq!(s.info, Some("EPYC".to_string()));
    assert!(ArtifactSummary::from_processor(processor("cpu", None, Some("EPYC"))).is_none());
    assert!(ArtifactSummary::from_processor(processor("cpu", Some("Cpu"), Some("EPYC"))).is_none());
    let mut bare = processor("cpu", Some("Processor"), Some("EPYC"));
    bare.populated_fru = None;
    assert_eq!(ArtifactSummary::from_processor(bare).unwrap().info, None);
}

#[test]
fn a_summary_becomes_a_processor_entry_and_back() {
    let entry = summary("x1000c0s0b0n0p1", ArtifactType::Processor, Some("EPYC")).into_processor();
    assert_eq!(entry.id, "x1000c0s0b0n0p1");
    assert_eq!(entry.kind, Some("Processor".to_string()));
    assert_eq!(entry.hw_inventory_by_location_type, "Processor");
    assert_eq!(entry.ordinal, None);
    let fru = entry.populated_fru.clone().unwrap();
    assert_eq!(fru.kind, Some("Processor".to_string()));
    assert_eq!(fru.hw_inventory_by_fru_type, "Processor");
    assert_eq!(fru.processor_fru_info.model, Some("EPYC".to_string()));
    let back = ArtifactSummary::from_processor(entry).unwrap();
    assert_eq!(back.xname, "x1000c0s0b0n0p1");
    assert_eq!(back.kind, ArtifactType::Processor);
    assert_eq!(back.info, Some("EPYC".to_string()));
}

#[test]
fn memory_is_summed_up_by_its_capacity() {
    let s = ArtifactSummary::from_memory(memory("d0", Some("Memory"), Some(16384))).unwrap();
    assert_eq!(s.kind, ArtifactType::Memory);
    assert_eq!(s.info, Some("16384".to_string()));
    assert_eq!(ArtifactSummary::from_memory(memory("d0", Some("Memory"), None)).unwrap().info, None);
    assert!(ArtifactSummary::from_memory(memory("d0", Some("Dimm"), Some(1))).is_none());
}

#[test]
fn a_summary_becomes_a_memory_entry() {
    let capacity = |info: Option<&str>| {
        summary("d0", ArtifactType::Memory, info)
            .into_memory()
            .populated_fru
            .unwrap()
            .memory_fru_info
            .capacity_mib
    };
    assert_eq!(capacity(Some("16384")), Some(16384));
    assert_eq!(capacity(Some("16384 MiB")), Some(0));
    assert_eq!(capacity(Some("")), Some(0));
    assert_eq!(capacity(Some("99999999999999999999999999")), Some(0));
    assert_eq!(capacity(None), None);
    let entry = summary("d0", ArtifactType::Memory, Some("1")).into_memory();
    assert_eq!(entry.kind, Some("Memory".to_string()));
    assert!(entry.memory_location_info.memory_location.is_some());
}

#[test]
fn accelerators_and_network_interfaces() {
    let accel = summary("a0", ArtifactType::NodeAccel, Some("A100")).into_node_accel();
    assert_eq!(accel.kind, Some("NodeAccel".to_string()));
    assert!(accel.node_accel_location_info.is_none());
    let back = ArtifactSummary::from_node_accel(accel).unwrap();
    assert_eq!((back.xname.as_str(), back.kind, back.info.as_deref()), ("a0", ArtifactType::NodeAccel, Some("A100")));

    let nic = summary("h0", ArtifactType::NodeHsnNic, None).into_hsn_nic();
    assert_eq!(nic.hw_inventory_by_location_type, "NodeHsnNic");
    let back = ArtifactSummary::from_hsn_nic(nic).unwrap();
    assert_eq!((back.xname.as_str(), back.kind, back.info), ("h0", ArtifactType::NodeHsnNic, None));

    let unknown = HWInvByLocHSNNIC {
        id: "h1".to_string(),
        kind: Some("Nic".to_string()),
        ordinal: None,
        status: None,
        hw_inventory_by_location_type: String::new(),
        populated_fru: None,
        hsn_nic_location_info: HSNNICLocationInfo { id: None, name: None, description: None },
    };
    assert!(ArtifactSummary::from_hsn_nic(unknown).is_none());
    let unknown = HWInvByLocNodeAccel {
        id: "a1".to_string(),
        kind: None,
        ordinal: None,
        status: None,
        hw_inventory_by_location_type: String::new(),
        populated_fru: None,
        node_accel_location_info: None,
    };
    assert!(ArtifactSummary::from_node_accel(unknown).is_none());
}

fn node(kind: Option<&str>, processors: Option<Vec<HWInvByLocProcessor>>, memory: Option<Vec<HWInvByLocMemory>>) -> HWInvByLocNode {
    HWInvByLocNode {
        id: "x1000c0s0b0n0".to_string(),
        kind: kind.map(|k| k.to_string()),
        ordinal: None,
        status: None,
        hw_inventory_by_location_type: "HWInvByLocNode".to_string(),
        populated_fru: None,
        node_location_info: None,
        processors,
        node_accels: None,
        drives: None,
        memory,
        node_accel_risers: None,
        node_hsn_nics: None,
    }
}

#[test]
fn a_node_is_summed_up_by_its_artifacts() {
    let s = NodeSummary::from_node(node(
        Some("Node"),
        Some(vec![
            processor("cpu0", Some("Processor"), Some("EPYC")),
            processor("cpu1", Some("Processor"), None),
        ]),
        Some(vec![memory("d0", Some("Memory"), Some(8192))]),
    ))
    .unwrap();
    assert_eq!(s.xname, "x1000c0s0b0n0");
    assert_eq!(s.kind, "Node");
    assert_eq!(s.processors.len(), 2);
    assert_eq!(s.processors[0].xname, "cpu0");
    assert_eq!(s.processors[0].info, Some("EPYC".to_string()));
    assert_eq!(s.processors[1].xname, "cpu1");
    assert_eq!(s.processors[1].info, None);
    assert_eq!(s.memory.len(), 1);
    assert_eq!(s.memory[0].info, Some("8192".to_string()));
    assert!(s.node_accels.is_empty());
    assert!(s.node_hsn_nics.is_empty());
}

#[test]
fn a_node_without_kind_or_lists() {
    let s = NodeSummary::from_node(node(None, None, None)).unwrap();
    assert_eq!(s.kind, "");
    assert!(s.processors.is_empty());
    assert!(s.memory.is_empty());
}

#[test]
fn a_node_with_an_unknown_artifact_has_no_summary() {
    assert!(NodeSummary::from_node(node(
        Some("Node"),
        Some(vec![processor("cpu0", Some("Processor"), None), processor("cpu1", Some("?"), None)]),
        None,
    ))
    .is_none());
    assert!(NodeSummary::from_node(node(Some("Node"), None, Some(vec![memory("d0", None, None)])))
        .is_none());
}

#[test]
fn a_summary_becomes_a_node_entry() {
    let s = NodeSummary {
        xname: "x1000c0s0b0n0".to_string(),
        kind: "Node".to_string(),
        processors: vec![summary("cpu0", ArtifactType::Processor, Some("EPYC"))],
        memory: vec![summary("d0", ArtifactType::Memory, Some("8192")), summary("d1", ArtifactType::Memory, None)],
        node_accels: vec![],
        node_hsn_nics: vec![summary("h0", ArtifactType::NodeHsnNic, Some("Slingshot"))],
    };
    let entry = s.into_node();
    assert_eq!(entry.id, "x1000c0s0b0n0");
    assert_eq!(entry.kind, Some("Node".to_string()));
    assert_eq!(entry.hw_inventory_by_location_type, "Node");
    assert_eq!(entry.populated_fru.as_ref().unwrap().hw_inventory_by_fru_type, "Node");
    assert!(entry.drives.is_none());
    assert!(entry.node_location_info.is_none());
    assert_eq!(entry.processors.as_ref().unwrap().len(), 1);
    assert_eq!(entry.memory.as_ref().unwrap().len(), 2);
    assert_eq!(entry.memory.as_ref().unwrap()[1].id, "d1");
    assert_eq!(entry.node_accels.as_ref().unwrap().len(), 0);
    assert_eq!(entry.node_hsn_nics.as_ref().unwrap()[0].id, "h0");
    let back = NodeSummary::from_node(entry).unwrap();
    assert_eq!(back.memory[0].info, Some("8192".to_string()));
    assert_eq!(back.node_hsn_nics[0].info, Some("Slingshot".to_string()));
}

#[test]
fn the_capacity_of_memory_carries_its_unit() {
    assert_eq!(ochami_rs::summary::capacity_label("16384"), "16384 MiB");
    assert_eq!(ochami_rs::summary::capacity_label(""), " MiB");
}
