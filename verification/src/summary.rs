//! The short form of a node's hardware, made from the inventory by location
//! and turned back into it.

use vstd::prelude::*;
use crate::inventory::{
    ArtifactSummary, ArtifactType, HSNNICLocationInfo, HWInvByFRUHSNNIC, HWInvByFRUMemory,
    HWInvByFRUNode, HWInvByFRUNodeAccel, HWInvByFRUProcessor, HWInvByLocHSNNIC, HWInvByLocMemory,
    HWInvByLocNode, HWInvByLocNodeAccel, HWInvByLocProcessor, MemoryLocation, NodeHsnNicFRUInfo,
    NodeSummary, RedfishMemoryFRUInfo, RedfishMemoryLocationInfo, RedfishProcessorFRUInfo,
    RedfishProcessorLocationInfo, RedfishSystemFRUInfo,
};
use crate::text::{decimal, decimal_string, numeral_value, parse_number, same_text};

verus! {

/// The name of a kind of artifact, as the inventory writes it.
pub open spec fn artifact_name(kind: ArtifactType) -> Seq<char> {
    match kind {
        ArtifactType::Memory => "Memory"@,
        ArtifactType::Processor => "Processor"@,
        ArtifactType::NodeAccel => "NodeAccel"@,
        ArtifactType::NodeHsnNic => "NodeHsnNic"@,
        ArtifactType::Drive => "Drive"@,
        ArtifactType::CabinetPDU => "CabinetPDU"@,
        ArtifactType::CabinetPDUPowerConnector => "CabinetPDUPowerConnector"@,
        ArtifactType::CMMRectifier => "CMMRectifier"@,
        ArtifactType::NodeAccelRiser => "NodeAccelRiser"@,
        ArtifactType::NodeEnclosurePowerSupplie => "NodeEnclosurePowerSupplie"@,
        ArtifactType::NodeBMC => "NodeBMC"@,
        ArtifactType::RouterBMC => "RouterBMC"@,
    }
}

/// The kind of artifact with the name `name`, if there is one.
pub open spec fn artifact_named(name: Seq<char>) -> Option<ArtifactType> {
    if name == "Memory"@ {
        Some(ArtifactType::Memory)
    } else if name == "Processor"@ {
        Some(ArtifactType::Processor)
    } else if name == "NodeAccel"@ {
        Some(ArtifactType::NodeAccel)
    } else if name == "NodeHsnNic"@ {
        Some(ArtifactType::NodeHsnNic)
    } else if name == "Drive"@ {
        Some(ArtifactType::Drive)
    } else if name == "CabinetPDU"@ {
        Some(ArtifactType::CabinetPDU)
    } else if name == "CabinetPDUPowerConnector"@ {
        Some(ArtifactType::CabinetPDUPowerConnector)
    } else if name == "CMMRectifier"@ {
        Some(ArtifactType::CMMRectifier)
    } else if name == "NodeAccelRiser"@ {
        Some(ArtifactType::NodeAccelRiser)
    } else if name == "NodeEnclosurePowerSupplie"@ {
        Some(ArtifactType::NodeEnclosurePowerSupplie)
    } else if name == "NodeBMC"@ {
        Some(ArtifactType::NodeBMC)
    } else if name == "RouterBMC"@ {
        Some(ArtifactType::RouterBMC)
    } else {
        None
    }
}

proof fn reveal_names()
    ensures
        "Memory"@.len() == 6,
        "Processor"@.len() == 9 && "Processor"@[0] == 'P',
        "NodeAccel"@.len() == 9 && "NodeAccel"@[0] == 'N',
        "NodeHsnNic"@.len() == 10 && "NodeHsnNic"@[0] == 'N',
        "Drive"@.len() == 5,
        "CabinetPDU"@.len() == 10 && "CabinetPDU"@[0] == 'C',
        "CabinetPDUPowerConnector"@.len() == 24,
        "CMMRectifier"@.len() == 12,
        "NodeAccelRiser"@.len() == 14,
        "NodeEnclosurePowerSupplie"@.len() == 25,
        "NodeBMC"@.len() == 7,
        "RouterBMC"@.len() == 9 && "RouterBMC"@[0] == 'R',
{
    reveal_strlit("Memory");
    reveal_strlit("Processor");
    reveal_strlit("NodeAccel");
    reveal_strlit("NodeHsnNic");
    reveal_strlit("Drive");
    reveal_strlit("CabinetPDU");
    reveal_strlit("CabinetPDUPowerConnector");
    reveal_strlit("CMMRectifier");
    reveal_strlit("NodeAccelRiser");
    reveal_strlit("NodeEnclosurePowerSupplie");
    reveal_strlit("NodeBMC");
    reveal_strlit("RouterBMC");
}

/// Each kind is found again by its name.
pub proof fn lemma_artifact_names_distinct(kind: ArtifactType)
    ensures
        artifact_named(artifact_name(kind)) == Some(kind),
{
    reveal_names();
}

impl ArtifactType {
    /// The name of the kind, as the inventory writes it.
    pub fn name(&self) -> (name: &'static str)
        ensures
            name@ == artifact_name(*self),
    {
        match self {
            ArtifactType::Memory => "Memory",
            ArtifactType::Processor => "Processor",
            ArtifactType::NodeAccel => "NodeAccel",
            ArtifactType::NodeHsnNic => "NodeHsnNic",
            ArtifactType::Drive => "Drive",
            ArtifactType::CabinetPDU => "CabinetPDU",
            ArtifactType::CabinetPDUPowerConnector => "CabinetPDUPowerConnector",
            ArtifactType::CMMRectifier => "CMMRectifier",
            ArtifactType::NodeAccelRiser => "NodeAccelRiser",
            ArtifactType::NodeEnclosurePowerSupplie => "NodeEnclosurePowerSupplie",
            ArtifactType::NodeBMC => "NodeBMC",
            ArtifactType::RouterBMC => "RouterBMC",
        }
    }

    /// The kind with the name `name`, if there is one.
    pub fn parse(name: &str) -> (kind: Option<ArtifactType>)
        ensures
            kind == artifact_named(name@),
    {
        if same_text(name, "Memory") {
            Some(ArtifactType::Memory)
        } else if same_text(name, "Processor") {
            Some(ArtifactType::Processor)
        } else if same_text(name, "NodeAccel") {
            Some(ArtifactType::NodeAccel)
        } else if same_text(name, "NodeHsnNic") {
            Some(ArtifactType::NodeHsnNic)
        } else if same_text(name, "Drive") {
            Some(ArtifactType::Drive)
        } else if same_text(name, "CabinetPDU") {
            Some(ArtifactType::CabinetPDU)
        } else if same_text(name, "CabinetPDUPowerConnector") {
            Some(ArtifactType::CabinetPDUPowerConnector)
        } else if same_text(name, "CMMRectifier") {
            Some(ArtifactType::CMMRectifier)
        } else if same_text(name, "NodeAccelRiser") {
            Some(ArtifactType::NodeAccelRiser)
        } else if same_text(name, "NodeEnclosurePowerSupplie") {
            Some(ArtifactType::NodeEnclosurePowerSupplie)
        } else if same_text(name, "NodeBMC") {
            Some(ArtifactType::NodeBMC)
        } else if same_text(name, "RouterBMC") {
            Some(ArtifactType::RouterBMC)
        } else {
            None
        }
    }
}

/// The kind that an inventory entry states, where it states a known one.
pub open spec fn stated_kind(kind: Option<String>) -> Option<ArtifactType> {
    match kind {
        Some(k) => artifact_named(k@),
        None => None,
    }
}

fn kind_of(kind: &Option<String>) -> (r: Option<ArtifactType>)
    ensures
        r == stated_kind(*kind),
{
    match kind {
        Some(k) => ArtifactType::parse(k.as_str()),
        None => None,
    }
}

/// The model of a processor entry, where a unit is in place and tells one.
pub open spec fn processor_model(value: HWInvByLocProcessor) -> Option<String> {
    match value.populated_fru {
        Some(fru) => fru.processor_fru_info.model,
        None => None,
    }
}

/// The capacity of a memory entry in MiB, as a decimal numeral, where a unit
/// is in place and tells it.
pub open spec fn memory_capacity(value: HWInvByLocMemory) -> Option<Seq<char>> {
    match value.populated_fru {
        Some(fru) => match fru.memory_fru_info.capacity_mib {
            Some(c) => Some(decimal(c as nat)),
            None => None,
        },
        None => None,
    }
}

/// The model of an accelerator entry, where a unit is in place and tells one.
pub open spec fn accel_model(value: HWInvByLocNodeAccel) -> Option<String> {
    match value.populated_fru {
        Some(fru) => fru.node_accel_fru_info.model,
        None => None,
    }
}

/// The model of a network interface entry, where a unit is in place and
/// tells one.
pub open spec fn nic_model(value: HWInvByLocHSNNIC) -> Option<String> {
    match value.populated_fru {
        Some(fru) => fru.node_hsn_nic_fru_info.model,
        None => None,
    }
}

/// The capacity in MiB that a memory entry tells, where a unit is in place
/// and tells one.
pub open spec fn stored_capacity(value: HWInvByLocMemory) -> Option<nat> {
    match value.populated_fru {
        Some(fru) => match fru.memory_fru_info.capacity_mib {
            Some(c) => Some(c as nat),
            None => None,
        },
        None => None,
    }
}

/// The info of a memory artifact as the inventory reports it: the capacity
/// in MiB as a numeral, a space and the unit.
pub fn capacity_label(numeral: &str) -> (label: String)
    ensures
        label@ == numeral@ + " MiB"@,
{
    let mut label = numeral.to_owned();
    label.append(" MiB");
    label
}

/// The capacity that the summary of a memory artifact stands for: the number
/// of its info where that is a numeral that fits, else zero; nothing without
/// info.
pub open spec fn capacity_of(info: Option<String>) -> Option<nat> {
    match info {
        Some(i) => match numeral_value(i@) {
            Some(v) => if v <= usize::MAX && v <= u64::MAX {
                Some(v)
            } else {
                Some(0)
            },
            None => Some(0),
        },
        None => None,
    }
}

/// The attributes of a processor of which only the model is known.
pub open spec fn only_model(info: RedfishProcessorFRUInfo, model: Option<String>) -> bool {
    &&& info.model == model
    &&& info.instruction_set is None
    &&& info.manufacturer is None
    &&& info.max_speed_mhz is None
    &&& info.processor_architecture is None
    &&& info.processor_id is None
    &&& info.processor_type is None
    &&& info.total_cores is None
    &&& info.total_threads is None
}

/// The attributes of a memory module of which at most the capacity is known.
pub open spec fn only_capacity(info: RedfishMemoryFRUInfo) -> bool {
    &&& info.base_module_type is None
    &&& info.bus_width_bits is None
    &&& info.data_width_bits is None
    &&& info.error_correction is None
    &&& info.manufacturer is None
    &&& info.memory_type is None
    &&& info.memory_device_type is None
    &&& info.operating_speed_mhz is None
    &&& info.part_number is None
    &&& info.rank_count is None
    &&& info.serial_number is None
}

/// The attributes of a network interface of which only the model is known.
pub open spec fn only_nic_model(info: NodeHsnNicFRUInfo, model: Option<String>) -> bool {
    &&& info.model == model
    &&& info.manufacturer is None
    &&& info.part_number is None
    &&& info.sku is None
    &&& info.serial_number is None
}

/// A place of which nothing is known.
pub open spec fn no_place(info: RedfishProcessorLocationInfo) -> bool {
    info.id is None && info.name is None && info.description is None && info.socket is None
}

/// The attributes of a node of which nothing is known.
pub open spec fn no_node_info(info: RedfishSystemFRUInfo) -> bool {
    &&& info.asset_tag is None
    &&& info.bios_version is None
    &&& info.model is None
    &&& info.manufacturer is None
    &&& info.part_number is None
    &&& info.serial_number is None
    &&& info.sku is None
    &&& info.system_type is None
    &&& info.uuid is None
}

fn empty_processor_info(model: Option<String>) -> (info: RedfishProcessorFRUInfo)
    ensures
        only_model(info, model),
{
    RedfishProcessorFRUInfo {
        instruction_set: None,
        manufacturer: None,
        max_speed_mhz: None,
        model,
        processor_architecture: None,
        processor_id: None,
        processor_type: None,
        total_cores: None,
        total_threads: None,
    }
}

impl ArtifactSummary {
    /// The summary of a processor entry: its identifier, its kind and its
    /// model. Nothing where the entry states no kind or an unknown one.
    pub fn from_processor(value: HWInvByLocProcessor) -> (r: Option<ArtifactSummary>)
        ensures
            match r {
                Some(s) => stated_kind(value.kind) == Some(s.kind) && s.xname == value.id
                    && s.info == processor_model(value),
                None => stated_kind(value.kind) is None,
            },
    {
        match kind_of(&value.kind) {
            Some(kind) => Some(
                ArtifactSummary {
                    xname: value.id,
                    kind,
                    info: match value.populated_fru {
                        Some(fru) => fru.processor_fru_info.model,
                        None => None,
                    },
                },
            ),
            None => None,
        }
    }

    /// The processor entry that the summary stands for: its identifier, the
    /// name of its kind, and a unit in place with its info as the model.
    pub fn into_processor(self) -> (r: HWInvByLocProcessor)
        ensures
            r.id == self.xname,
            r.kind matches Some(k) && k@ == artifact_name(self.kind),
            r.hw_inventory_by_location_type@ == artifact_name(self.kind),
            r.ordinal is None,
            r.status is None,
            r.populated_fru matches Some(fru) && only_model(fru.processor_fru_info, self.info)
                && fru.hw_inventory_by_fru_type@ == artifact_name(self.kind) && (fru.kind matches Some(
                k,
            ) && k@ == artifact_name(self.kind)) && fru.fru_id is None && fru.fru_sub_type is None,
            no_place(r.processor_location_info),
            stated_kind(r.kind) == Some(self.kind),
            processor_model(r) == self.info,
    {
        proof {
            lemma_artifact_names_distinct(self.kind);
        }
        let name = self.kind.name();
        let fru = HWInvByFRUProcessor {
            fru_id: None,
            kind: Some(name.to_owned()),
            fru_sub_type: None,
            hw_inventory_by_fru_type: name.to_owned(),
            processor_fru_info: empty_processor_info(self.info),
        };
        HWInvByLocProcessor {
            id: self.xname,
            kind: Some(name.to_owned()),
            ordinal: None,
            status: None,
            hw_inventory_by_location_type: name.to_owned(),
            populated_fru: Some(fru),
            processor_location_info: RedfishProcessorLocationInfo {
                id: None,
                name: None,
                description: None,
                socket: None,
            },
        }
    }

    /// The summary of a memory entry: its identifier, its kind and its
    /// capacity in MiB. Nothing where the entry states no kind or an unknown
    /// one.
    pub fn from_memory(value: HWInvByLocMemory) -> (r: Option<ArtifactSummary>)
        ensures
            match r {
                Some(s) => stated_kind(value.kind) == Some(s.kind) && s.xname == value.id && (
                match s.info {
                    Some(i) => memory_capacity(value) == Some(i@),
                    None => memory_capacity(value) is None,
                }),
                None => stated_kind(value.kind) is None,
            },
    {
        match kind_of(&value.kind) {
            Some(kind) => {
                let info = match &value.populated_fru {
                    Some(fru) => match fru.memory_fru_info.capacity_mib {
                        Some(c) => Some(decimal_string(c as u64)),
                        None => None,
                    },
                    None => None,
                };
                Some(ArtifactSummary { xname: value.id, kind, info })
            },
            None => None,
        }
    }

    /// The memory entry that the summary stands for: its identifier, the name
    /// of its kind, and a unit in place with the capacity that its info tells.
    pub fn into_memory(self) -> (r: HWInvByLocMemory)
        ensures
            r.id == self.xname,
            r.kind matches Some(k) && k@ == artifact_name(self.kind),
            r.hw_inventory_by_location_type@ == artifact_name(self.kind),
            r.ordinal is None,
            r.status is None,
            r.populated_fru matches Some(fru) && fru.hw_inventory_by_fru_type@ == artifact_name(
                self.kind,
            ) && (fru.kind matches Some(k) && k@ == artifact_name(self.kind)) && fru.fru_id is None
                && fru.fru_sub_type is None && only_capacity(fru.memory_fru_info),
            r.memory_location_info.id is None,
            r.memory_location_info.name is None,
            r.memory_location_info.description is None,
            r.memory_location_info.memory_location matches Some(place) && place.socket is None
                && place.memory_controller is None && place.channel is None && place.slot is None,
            stored_capacity(r) == capacity_of(self.info),
            stated_kind(r.kind) == Some(self.kind),
    {
        proof {
            lemma_artifact_names_distinct(self.kind);
        }
        let name = self.kind.name();
        let capacity_mib: Option<usize> = match &self.info {
            Some(info) => match parse_number(info.as_str()) {
                Some(n) => if n <= usize::MAX as u64 {
                    Some(n as usize)
                } else {
                    Some(0)
                },
                None => Some(0),
            },
            None => None,
        };
        let fru = HWInvByFRUMemory {
            fru_id: None,
            kind: Some(name.to_owned()),
            fru_sub_type: None,
            hw_inventory_by_fru_type: name.to_owned(),
            memory_fru_info: RedfishMemoryFRUInfo {
                base_module_type: None,
                bus_width_bits: None,
                capacity_mib,
                data_width_bits: None,
                error_correction: None,
                manufacturer: None,
                memory_type: None,
                memory_device_type: None,
                operating_speed_mhz: None,
                part_number: None,
                rank_count: None,
                serial_number: None,
            },
        };
        HWInvByLocMemory {
            id: self.xname,
            kind: Some(name.to_owned()),
            ordinal: None,
            status: None,
            hw_inventory_by_location_type: name.to_owned(),
            populated_fru: Some(fru),
            memory_location_info: RedfishMemoryLocationInfo {
                id: None,
                name: None,
                description: None,
                memory_location: Some(
                    MemoryLocation {
                        socket: None,
                        memory_controller: None,
                        channel: None,
                        slot: None,
                    },
                ),
            },
        }
    }

    /// The summary of an accelerator entry: its identifier, its kind and its
    /// model. Nothing where the entry states no kind or an unknown one.
    pub fn from_node_accel(value: HWInvByLocNodeAccel) -> (r: Option<ArtifactSummary>)
        ensures
            match r {
                Some(s) => stated_kind(value.kind) == Some(s.kind) && s.xname == value.id
                    && s.info == accel_model(value),
                None => stated_kind(value.kind) is None,
            },
    {
        match kind_of(&value.kind) {
            Some(kind) => Some(
                ArtifactSummary {
                    xname: value.id,
                    kind,
                    info: match value.populated_fru {
                        Some(fru) => fru.node_accel_fru_info.model,
                        None => None,
                    },
                },
            ),
            None => None,
        }
    }

    /// The accelerator entry that the summary stands for: its identifier, the
    /// name of its kind, and a unit in place with its info as the model.
    pub fn into_node_accel(self) -> (r: HWInvByLocNodeAccel)
        ensures
            r.id == self.xname,
            r.kind matches Some(k) && k@ == artifact_name(self.kind),
            r.hw_inventory_by_location_type@ == artifact_name(self.kind),
            r.ordinal is None,
            r.status is None,
            r.node_accel_location_info is None,
            r.populated_fru matches Some(fru) && only_model(fru.node_accel_fru_info, self.info)
                && fru.hw_inventory_by_fru_type@ == artifact_name(self.kind) && (fru.kind matches Some(
                k,
            ) && k@ == artifact_name(self.kind)) && fru.fru_id is None && fru.fru_sub_type is None,
            stated_kind(r.kind) == Some(self.kind),
            accel_model(r) == self.info,
    {
        proof {
            lemma_artifact_names_distinct(self.kind);
        }
        let name = self.kind.name();
        let fru = HWInvByFRUNodeAccel {
            fru_id: None,
            kind: Some(name.to_owned()),
            fru_sub_type: None,
            hw_inventory_by_fru_type: name.to_owned(),
            node_accel_fru_info: empty_processor_info(self.info),
        };
        HWInvByLocNodeAccel {
            id: self.xname,
            kind: Some(name.to_owned()),
            ordinal: None,
            status: None,
            hw_inventory_by_location_type: name.to_owned(),
            populated_fru: Some(fru),
            node_accel_location_info: None,
        }
    }

    /// The summary of a network interface entry: its identifier, its kind
    /// and its model. Nothing where the entry states no kind or an unknown one.
    pub fn from_hsn_nic(value: HWInvByLocHSNNIC) -> (r: Option<ArtifactSummary>)
        ensures
            match r {
                Some(s) => stated_kind(value.kind) == Some(s.kind) && s.xname == value.id
                    && s.info == nic_model(value),
                None => stated_kind(value.kind) is None,
            },
    {
        match kind_of(&value.kind) {
            Some(kind) => Some(
                ArtifactSummary {
                    xname: value.id,
                    kind,
                    info: match value.populated_fru {
                        Some(fru) => fru.node_hsn_nic_fru_info.model,
                        None => None,
                    },
                },
            ),
            None => None,
        }
    }

    /// The network interface entry that the summary stands for: its
    /// identifier, the name of its kind, and a unit in place with its info
    /// as the model.
    pub fn into_hsn_nic(self) -> (r: HWInvByLocHSNNIC)
        ensures
            r.id == self.xname,
            r.kind matches Some(k) && k@ == artifact_name(self.kind),
            r.hw_inventory_by_location_type@ == artifact_name(self.kind),
            r.ordinal is None,
            r.status is None,
            r.populated_fru matches Some(fru) && only_nic_model(
                fru.node_hsn_nic_fru_info,
                self.info,
            ) && fru.hw_inventory_by_fru_type@ == artifact_name(self.kind) && (fru.kind matches Some(
                k,
            ) && k@ == artifact_name(self.kind)) && fru.fru_id is None && fru.fru_sub_type is None,
            r.hsn_nic_location_info.id is None,
            r.hsn_nic_location_info.name is None,
            r.hsn_nic_location_info.description is None,
            stated_kind(r.kind) == Some(self.kind),
            nic_model(r) == self.info,
    {
        proof {
            lemma_artifact_names_distinct(self.kind);
        }
        let name = self.kind.name();
        let fru = HWInvByFRUHSNNIC {
            fru_id: None,
            kind: Some(name.to_owned()),
            fru_sub_type: None,
            hw_inventory_by_fru_type: name.to_owned(),
            node_hsn_nic_fru_info: NodeHsnNicFRUInfo {
                manufacturer: None,
                model: self.info,
                part_number: None,
                sku: None,
                serial_number: None,
            },
        };
        HWInvByLocHSNNIC {
            id: self.xname,
            kind: Some(name.to_owned()),
            ordinal: None,
            status: None,
            hw_inventory_by_location_type: name.to_owned(),
            populated_fru: Some(fru),
            hsn_nic_location_info: HSNNICLocationInfo { id: None, name: None, description: None },
        }
    }
}

/// Every entry of the list states a known kind.
pub open spec fn all_processors_known(list: Option<Vec<HWInvByLocProcessor>>) -> bool {
    list matches Some(l) ==> forall|i: int|
        0 <= i < l.len() ==> stated_kind((#[trigger] l@[i]).kind) is Some
}

/// Every entry of the list states a known kind.
pub open spec fn all_memory_known(list: Option<Vec<HWInvByLocMemory>>) -> bool {
    list matches Some(l) ==> forall|i: int|
        0 <= i < l.len() ==> stated_kind((#[trigger] l@[i]).kind) is Some
}

/// Every entry of the list states a known kind.
pub open spec fn all_accels_known(list: Option<Vec<HWInvByLocNodeAccel>>) -> bool {
    list matches Some(l) ==> forall|i: int|
        0 <= i < l.len() ==> stated_kind((#[trigger] l@[i]).kind) is Some
}

/// Every entry of the list states a known kind.
pub open spec fn all_nics_known(list: Option<Vec<HWInvByLocHSNNIC>>) -> bool {
    list matches Some(l) ==> forall|i: int|
        0 <= i < l.len() ==> stated_kind((#[trigger] l@[i]).kind) is Some
}

/// The number of entries of an optional list.
pub open spec fn count<T>(list: Option<Vec<T>>) -> nat {
    match list {
        Some(l) => l@.len(),
        None => 0,
    }
}

fn processor_summaries(list: Option<Vec<HWInvByLocProcessor>>) -> (r: Option<
    Vec<ArtifactSummary>,
>)
    ensures
        match r {
            Some(v) => all_processors_known(list) && v.len() == count(list) && forall|i: int|
                0 <= i < v.len() ==> (#[trigger] v@[i]).xname == list->0@[i].id && v@[i].info
                    == processor_model(list->0@[i]) && Some(v@[i].kind) == stated_kind(
                    list->0@[i].kind,
                ),
            None => !all_processors_known(list),
        },
{
    let mut out: Vec<ArtifactSummary> = Vec::new();
    if let Some(l) = list {
        let mut l = l;
        let ghost all = l@;
        while l.len() > 0
            invariant
                list is Some,
                list->0@ == all,
                out.len() + l.len() == all.len(),
                forall|i: int| 0 <= i < l.len() ==> l@[i] == all[out.len() + i],
                forall|i: int|
                    0 <= i < out.len() ==> (#[trigger] out@[i]).xname == all[i].id && out@[i].info
                        == processor_model(all[i]) && Some(out@[i].kind) == stated_kind(
                        all[i].kind,
                    ),
            decreases l.len(),
        {
            let entry = l.remove(0);
            match ArtifactSummary::from_processor(entry) {
                Some(s) => out.push(s),
                None => {
                    assert(stated_kind(all[out.len() as int].kind) is None);
                    return None;
                },
            }
        }
        proof {
            assert forall|i: int| 0 <= i < all.len() implies stated_kind(
                (#[trigger] all[i]).kind,
            ) is Some by {
                assert(Some(out@[i].kind) == stated_kind(all[i].kind));
            }
        }
    }
    Some(out)
}

fn memory_summaries(list: Option<Vec<HWInvByLocMemory>>) -> (r: Option<Vec<ArtifactSummary>>)
    ensures
        match r {
            Some(v) => all_memory_known(list) && v.len() == count(list) && forall|i: int|
                0 <= i < v.len() ==> (#[trigger] v@[i]).xname == list->0@[i].id && Some(
                    v@[i].kind,
                ) == stated_kind(list->0@[i].kind) && (match v@[i].info {
                    Some(info) => memory_capacity(list->0@[i]) == Some(info@),
                    None => memory_capacity(list->0@[i]) is None,
                }),
            None => !all_memory_known(list),
        },
{
    let mut out: Vec<ArtifactSummary> = Vec::new();
    if let Some(l) = list {
        let mut l = l;
        let ghost all = l@;
        while l.len() > 0
            invariant
                list is Some,
                list->0@ == all,
                out.len() + l.len() == all.len(),
                forall|i: int| 0 <= i < l.len() ==> l@[i] == all[out.len() + i],
                forall|i: int|
                    0 <= i < out.len() ==> (#[trigger] out@[i]).xname == all[i].id && Some(
                        out@[i].kind,
                    ) == stated_kind(all[i].kind) && (match out@[i].info {
                        Some(info) => memory_capacity(all[i]) == Some(info@),
                        None => memory_capacity(all[i]) is None,
                    }),
            decreases l.len(),
        {
            let entry = l.remove(0);
            match ArtifactSummary::from_memory(entry) {
                Some(s) => out.push(s),
                None => {
                    assert(stated_kind(all[out.len() as int].kind) is None);
                    return None;
                },
            }
        }
        proof {
            assert forall|i: int| 0 <= i < all.len() implies stated_kind(
                (#[trigger] all[i]).kind,
            ) is Some by {
                assert(Some(out@[i].kind) == stated_kind(all[i].kind));
            }
        }
    }
    Some(out)
}

fn accel_summaries(list: Option<Vec<HWInvByLocNodeAccel>>) -> (r: Option<Vec<ArtifactSummary>>)
    ensures
        match r {
            Some(v) => all_accels_known(list) && v.len() == count(list) && forall|i: int|
                0 <= i < v.len() ==> (#[trigger] v@[i]).xname == list->0@[i].id && v@[i].info
                    == accel_model(list->0@[i]) && Some(v@[i].kind) == stated_kind(
                    list->0@[i].kind,
                ),
            None => !all_accels_known(list),
        },
{
    let mut out: Vec<ArtifactSummary> = Vec::new();
    if let Some(l) = list {
        let mut l = l;
        let ghost all = l@;
        while l.len() > 0
            invariant
                list is Some,
                list->0@ == all,
                out.len() + l.len() == all.len(),
                forall|i: int| 0 <= i < l.len() ==> l@[i] == all[out.len() + i],
                forall|i: int|
                    0 <= i < out.len() ==> (#[trigger] out@[i]).xname == all[i].id && out@[i].info
                        == accel_model(all[i]) && Some(out@[i].kind) == stated_kind(all[i].kind),
            decreases l.len(),
        {
            let entry = l.remove(0);
            match ArtifactSummary::from_node_accel(entry) {
                Some(s) => out.push(s),
                None => {
                    assert(stated_kind(all[out.len() as int].kind) is None);
                    return None;
                },
            }
        }
        proof {
            assert forall|i: int| 0 <= i < all.len() implies stated_kind(
                (#[trigger] all[i]).kind,
            ) is Some by {
                assert(Some(out@[i].kind) == stated_kind(all[i].kind));
            }
        }
    }
    Some(out)
}

fn nic_summaries(list: Option<Vec<HWInvByLocHSNNIC>>) -> (r: Option<Vec<ArtifactSummary>>)
    ensures
        match r {
            Some(v) => all_nics_known(list) && v.len() == count(list) && forall|i: int|
                0 <= i < v.len() ==> (#[trigger] v@[i]).xname == list->0@[i].id && v@[i].info
                    == nic_model(list->0@[i]) && Some(v@[i].kind) == stated_kind(
                    list->0@[i].kind,
                ),
            None => !all_nics_known(list),
        },
{
    let mut out: Vec<ArtifactSummary> = Vec::new();
    if let Some(l) = list {
        let mut l = l;
        let ghost all = l@;
        while l.len() > 0
            invariant
                list is Some,
                list->0@ == all,
                out.len() + l.len() == all.len(),
                forall|i: int| 0 <= i < l.len() ==> l@[i] == all[out.len() + i],
                forall|i: int|
                    0 <= i < out.len() ==> (#[trigger] out@[i]).xname == all[i].id && out@[i].info
                        == nic_model(all[i]) && Some(out@[i].kind) == stated_kind(all[i].kind),
            decreases l.len(),
        {
            let entry = l.remove(0);
            match ArtifactSummary::from_hsn_nic(entry) {
                Some(s) => out.push(s),
                None => {
                    assert(stated_kind(all[out.len() as int].kind) is None);
                    return None;
                },
            }
        }
        proof {
            assert forall|i: int| 0 <= i < all.len() implies stated_kind(
                (#[trigger] all[i]).kind,
            ) is Some by {
                assert(Some(out@[i].kind) == stated_kind(all[i].kind));
            }
        }
    }
    Some(out)
}

/// Every artifact of the node states a known kind.
pub open spec fn artifacts_known(value: HWInvByLocNode) -> bool {
    &&& all_processors_known(value.processors)
    &&& all_memory_known(value.memory)
    &&& all_accels_known(value.node_accels)
    &&& all_nics_known(value.node_hsn_nics)
}

impl NodeSummary {
    /// The summary of a node entry: its identifier, its kind (empty where it
    /// states none), and a summary of each processor, memory module,
    /// accelerator and network interface, in the order of the entry. Nothing
    /// where one of these states no kind or an unknown one.
    pub fn from_node(value: HWInvByLocNode) -> (r: Option<NodeSummary>)
        ensures
            match r {
                Some(s) => {
                    &&& artifacts_known(value)
                    &&& s.xname == value.id
                    &&& s.kind@ == match value.kind {
                        Some(k) => k@,
                        None => Seq::<char>::empty(),
                    }
                    &&& s.processors.len() == count(value.processors)
                    &&& s.memory.len() == count(value.memory)
                    &&& s.node_accels.len() == count(value.node_accels)
                    &&& s.node_hsn_nics.len() == count(value.node_hsn_nics)
                    &&& forall|i: int|
                        0 <= i < s.processors.len() ==> (#[trigger] s.processors@[i]).xname
                            == value.processors->0@[i].id && s.processors@[i].info
                            == processor_model(value.processors->0@[i]) && Some(
                            s.processors@[i].kind,
                        ) == stated_kind(value.processors->0@[i].kind)
                    &&& forall|i: int|
                        0 <= i < s.memory.len() ==> (#[trigger] s.memory@[i]).xname
                            == value.memory->0@[i].id && Some(s.memory@[i].kind) == stated_kind(
                            value.memory->0@[i].kind,
                        ) && (match s.memory@[i].info {
                            Some(info) => memory_capacity(value.memory->0@[i]) == Some(info@),
                            None => memory_capacity(value.memory->0@[i]) is None,
                        })
                    &&& forall|i: int|
                        0 <= i < s.node_accels.len() ==> (#[trigger] s.node_accels@[i]).xname
                            == value.node_accels->0@[i].id && s.node_accels@[i].info == accel_model(
                            value.node_accels->0@[i],
                        ) && Some(s.node_accels@[i].kind) == stated_kind(
                            value.node_accels->0@[i].kind,
                        )
                    &&& forall|i: int|
                        0 <= i < s.node_hsn_nics.len() ==> (#[trigger] s.node_hsn_nics@[i]).xname
                            == value.node_hsn_nics->0@[i].id && s.node_hsn_nics@[i].info
                            == nic_model(value.node_hsn_nics->0@[i]) && Some(
                            s.node_hsn_nics@[i].kind,
                        ) == stated_kind(value.node_hsn_nics->0@[i].kind)
                },
                None => !artifacts_known(value),
            },
    {
        let processors = match processor_summaries(value.processors) {
            Some(v) => v,
            None => {
                return None;
            },
        };
        let memory = match memory_summaries(value.memory) {
            Some(v) => v,
            None => {
                return None;
            },
        };
        let node_accels = match accel_summaries(value.node_accels) {
            Some(v) => v,
            None => {
                return None;
            },
        };
        let node_hsn_nics = match nic_summaries(value.node_hsn_nics) {
            Some(v) => v,
            None => {
                return None;
            },
        };
        let kind = match value.kind {
            Some(k) => k,
            None => String::new(),
        };
        Some(NodeSummary { xname: value.id, kind, processors, memory, node_accels, node_hsn_nics })
    }

    /// The node entry that the summary stands for: its identifier and kind,
    /// an entry for each of its artifacts in order, and nothing else.
    pub fn into_node(self) -> (r: HWInvByLocNode)
        ensures
            r.id == self.xname,
            r.kind matches Some(k) && k@ == self.kind@,
            r.hw_inventory_by_location_type@ == self.kind@,
            r.populated_fru matches Some(fru) && fru.hw_inventory_by_fru_type@ == self.kind@
                && fru.fru_id is None && fru.kind is None && fru.fru_sub_type is None
                && no_node_info(fru.node_fru_info),
            r.ordinal is None,
            r.status is None,
            r.node_location_info is None,
            r.drives is None,
            r.node_accel_risers is None,
            r.processors matches Some(p) && p.len() == self.processors.len() && forall|i: int|
                0 <= i < p.len() ==> (#[trigger] p@[i]).id == self.processors@[i].xname
                    && processor_model(p@[i]) == self.processors@[i].info && stated_kind(
                    p@[i].kind,
                ) == Some(self.processors@[i].kind),
            r.memory matches Some(m) && m.len() == self.memory.len() && forall|i: int|
                0 <= i < m.len() ==> (#[trigger] m@[i]).id == self.memory@[i].xname
                    && stated_kind(m@[i].kind) == Some(self.memory@[i].kind) && stored_capacity(
                    m@[i],
                ) == capacity_of(self.memory@[i].info),
            r.node_accels matches Some(a) && a.len() == self.node_accels.len() && forall|i: int|
                0 <= i < a.len() ==> (#[trigger] a@[i]).id == self.node_accels@[i].xname
                    && accel_model(a@[i]) == self.node_accels@[i].info && stated_kind(a@[i].kind)
                    == Some(self.node_accels@[i].kind),
            r.node_hsn_nics matches Some(n) && n.len() == self.node_hsn_nics.len() && forall|
                i: int,
            |
                0 <= i < n.len() ==> (#[trigger] n@[i]).id == self.node_hsn_nics@[i].xname
                    && nic_model(n@[i]) == self.node_hsn_nics@[i].info && stated_kind(n@[i].kind)
                    == Some(self.node_hsn_nics@[i].kind),
    {
        let fru = HWInvByFRUNode {
            fru_id: None,
            kind: None,
            fru_sub_type: None,
            hw_inventory_by_fru_type: self.kind.clone(),
            node_fru_info: RedfishSystemFRUInfo {
                asset_tag: None,
                bios_version: None,
                model: None,
                manufacturer: None,
                part_number: None,
                serial_number: None,
                sku: None,
                system_type: None,
                uuid: None,
            },
        };
        let ghost want = self;
        let mut source = self.processors;
        let mut processors: Vec<HWInvByLocProcessor> = Vec::new();
        while source.len() > 0
            invariant
                processors.len() + source.len() == want.processors.len(),
                forall|i: int|
                    0 <= i < source.len() ==> source@[i] == want.processors@[processors.len() + i],
                forall|i: int|
                    0 <= i < processors.len() ==> (#[trigger] processors@[i]).id
                        == want.processors@[i].xname && processor_model(processors@[i])
                        == want.processors@[i].info && stated_kind(processors@[i].kind) == Some(
                        want.processors@[i].kind,
                    ),
            decreases source.len(),
        {
            let s = source.remove(0);
            processors.push(s.into_processor());
        }
        let mut source = self.memory;
        let mut memory: Vec<HWInvByLocMemory> = Vec::new();
        while source.len() > 0
            invariant
                memory.len() + source.len() == want.memory.len(),
                forall|i: int|
                    0 <= i < source.len() ==> source@[i] == want.memory@[memory.len() + i],
                forall|i: int|
                    0 <= i < memory.len() ==> (#[trigger] memory@[i]).id == want.memory@[i].xname
                        && stated_kind(memory@[i].kind) == Some(want.memory@[i].kind)
                        && stored_capacity(memory@[i]) == capacity_of(want.memory@[i].info),
            decreases source.len(),
        {
            let s = source.remove(0);
            memory.push(s.into_memory());
        }
        let mut source = self.node_accels;
        let mut node_accels: Vec<HWInvByLocNodeAccel> = Vec::new();
        while source.len() > 0
            invariant
                node_accels.len() + source.len() == want.node_accels.len(),
                forall|i: int|
                    0 <= i < source.len() ==> source@[i] == want.node_accels@[node_accels.len()
                        + i],
                forall|i: int|
                    0 <= i < node_accels.len() ==> (#[trigger] node_accels@[i]).id
                        == want.node_accels@[i].xname && accel_model(node_accels@[i])
                        == want.node_accels@[i].info && stated_kind(node_accels@[i].kind) == Some(
                        want.node_accels@[i].kind,
                    ),
            decreases source.len(),
        {
            let s = source.remove(0);
            node_accels.push(s.into_node_accel());
        }
        let mut source = self.node_hsn_nics;
        let mut node_hsn_nics: Vec<HWInvByLocHSNNIC> = Vec::new();
        while source.len() > 0
            invariant
                node_hsn_nics.len() + source.len() == want.node_hsn_nics.len(),
                forall|i: int|
                    0 <= i < source.len() ==> source@[i] == want.node_hsn_nics@[node_hsn_nics.len()
                        + i],
                forall|i: int|
                    0 <= i < node_hsn_nics.len() ==> (#[trigger] node_hsn_nics@[i]).id
                        == want.node_hsn_nics@[i].xname && nic_model(node_hsn_nics@[i])
                        == want.node_hsn_nics@[i].info && stated_kind(node_hsn_nics@[i].kind)
                        == Some(want.node_hsn_nics@[i].kind),
            decreases source.len(),
        {
            let s = source.remove(0);
            node_hsn_nics.push(s.into_hsn_nic());
        }
        HWInvByLocNode {
            id: self.xname,
            kind: Some(self.kind.clone()),
            ordinal: None,
            status: None,
            hw_inventory_by_location_type: self.kind,
            populated_fru: Some(fru),
            node_location_info: None,
            processors: Some(processors),
            node_accels: Some(node_accels),
            drives: None,
            memory: Some(memory),
            node_accel_risers: None,
            node_hsn_nics: Some(node_hsn_nics),
        }
    }
}

} // verus!
