//! The hardware inventory as the state manager reports it, by location and
//! by field-replaceable unit, and the short form of a node's hardware.

use vstd::prelude::*;

verus! {

/// The kind of a hardware artifact of a node.
#[derive(Clone, Copy, Debug, PartialEq, Eq, Structural)]
pub enum ArtifactType {
    Memory,
    Processor,
    NodeAccel,
    NodeHsnNic,
    Drive,
    CabinetPDU,
    CabinetPDUPowerConnector,
    CMMRectifier,
    NodeAccelRiser,
    NodeEnclosurePowerSupplie,
    NodeBMC,
    RouterBMC,
}

/// The hardware of one node in short: its artifacts by kind.
#[derive(Clone, Debug)]
pub struct NodeSummary {
    pub xname: String,
    pub kind: String,
    pub processors: Vec<ArtifactSummary>,
    pub memory: Vec<ArtifactSummary>,
    pub node_accels: Vec<ArtifactSummary>,
    pub node_hsn_nics: Vec<ArtifactSummary>,
}

/// One hardware artifact of a node, with the one attribute that tells it apart.
#[derive(Clone, Debug)]
pub struct ArtifactSummary {
    pub xname: String,
    pub kind: ArtifactType,
    pub info: Option<String>,
}

/// The kinds of component that the inventory knows.
#[derive(Clone, Copy, Debug, PartialEq, Eq, Structural)]
pub enum ComponentType {
    CDU,
    CabinetCDU,
    CabinetPDU,
    CabinetPDUOutlet,
    CabinetPDUPowerConnector,
    CabinetPDUController,
    Cabinet,
    Chassis,
    ChassisBMC,
    CMMRectifier,
    CMMFpga,
    CEC,
    ComputeModule,
    RouterModule,
    NodeBMC,
    NodeEnclosure,
    NodeEnclosurePowerSupply,
    HSNBoard,
    Node,
    Processor,
    Drive,
    StorageGroup,
    NodeNIC,
    Memory,
    NodeAccel,
    NodeAccelRiser,
    NodeFpga,
    HSNAsic,
    RouterFpga,
    RouterBMC,
    HSNLink,
    HSNConnector,
    INVALID,
}

/// Part of an inventory entry.
#[derive(Clone, Debug)]
pub struct ProcessorId {
    pub effective_family: Option<String>,
    pub efffective_model: Option<String>,
    pub identification_registers: Option<String>,
    pub microcode_info: Option<String>,
    pub step: Option<String>,
    pub vendor_id: Option<String>,
}

/// What Redfish tells of a field-replaceable unit.
#[derive(Clone, Debug)]
pub struct RedfishProcessorFRUInfo {
    pub instruction_set: Option<String>,
    pub manufacturer: Option<String>,
    pub max_speed_mhz: Option<usize>,
    pub model: Option<String>,
    pub processor_architecture: Option<String>,
    pub processor_id: Option<ProcessorId>,
    pub processor_type: Option<String>,
    pub total_cores: Option<usize>,
    pub total_threads: Option<usize>,
}

/// The inventory entry of a processor, by field-replaceable unit.
#[derive(Clone, Debug)]
pub struct HWInvByFRUProcessor {
    pub fru_id: Option<String>,
    pub kind: Option<String>,
    pub fru_sub_type: Option<String>,
    pub hw_inventory_by_fru_type: String,
    pub processor_fru_info: RedfishProcessorFRUInfo,
}

/// What Redfish tells of a field-replaceable unit.
#[derive(Clone, Debug)]
pub struct RedfishMemoryFRUInfo {
    pub base_module_type: Option<String>,
    pub bus_width_bits: Option<usize>,
    pub capacity_mib: Option<usize>,
    pub data_width_bits: Option<usize>,
    pub error_correction: Option<String>,
    pub manufacturer: Option<String>,
    pub memory_type: Option<String>,
    pub memory_device_type: Option<String>,
    pub operating_speed_mhz: Option<usize>,
    pub part_number: Option<String>,
    pub rank_count: Option<usize>,
    pub serial_number: Option<String>,
}

/// The inventory entry of a memory, by field-replaceable unit.
#[derive(Clone, Debug)]
pub struct HWInvByFRUMemory {
    pub fru_id: Option<String>,
    pub kind: Option<String>,
    pub fru_sub_type: Option<String>,
    pub hw_inventory_by_fru_type: String,
    pub memory_fru_info: RedfishMemoryFRUInfo,
}

/// The inventory entry of a node accel, by field-replaceable unit.
#[derive(Clone, Debug)]
pub struct HWInvByFRUNodeAccel {
    pub fru_id: Option<String>,
    pub kind: Option<String>,
    pub fru_sub_type: Option<String>,
    pub hw_inventory_by_fru_type: String,
    pub node_accel_fru_info: RedfishProcessorFRUInfo,
}

/// What Redfish tells of a field-replaceable unit.
#[derive(Clone, Debug)]
pub struct NodeHsnNicFRUInfo {
    pub manufacturer: Option<String>,
    pub model: Option<String>,
    pub part_number: Option<String>,
    pub sku: Option<String>,
    pub serial_number: Option<String>,
}

/// The inventory entry of a hsnnic, by field-replaceable unit.
#[derive(Clone, Debug)]
pub struct HWInvByFRUHSNNIC {
    pub fru_id: Option<String>,
    pub kind: Option<String>,
    pub fru_sub_type: Option<String>,
    pub hw_inventory_by_fru_type: String,
    pub node_hsn_nic_fru_info: NodeHsnNicFRUInfo,
}

/// A field-replaceable unit of the inventory.
#[derive(Clone, Debug)]
pub struct HWInventoryByFRU {
    pub fru_id: Option<String>,
    pub kind: Option<String>,
    pub fru_sub_type: Option<String>,
    pub hw_inventory_by_fru_type: String,
}

/// What Redfish tells of the place of a component.
#[derive(Clone, Debug)]
pub struct RedfishChassisLocationInfo {
    pub id: Option<String>,
    pub name: Option<String>,
    pub description: Option<String>,
    pub hostname: Option<String>,
}

/// The inventory entry of a chassis, by location.
#[derive(Clone, Debug)]
pub struct HWInvByLocChassis {
    pub id: String,
    pub kind: Option<String>,
    pub ordinal: Option<u32>,
    pub status: Option<String>,
    pub hw_inventory_by_location_type: String,
    pub populated_fru: Option<HWInventoryByFRU>,
    pub chassis_location_info: Option<RedfishChassisLocationInfo>,
    pub compute_modules: Option<HWInvByLocComputeModule>,
    pub router_modules: Option<HWInvByLocRouterModule>,
}

/// The inventory entry of a node enclosure, by location.
#[derive(Clone, Debug)]
pub struct HWInvByLocNodeEnclosure {
    pub id: String,
    pub kind: Option<String>,
    pub ordinal: Option<u32>,
    pub status: Option<String>,
    pub hw_inventory_by_location_type: String,
    pub populated_fru: Option<HWInventoryByFRU>,
    pub node_enclosure_location_info: Option<RedfishChassisLocationInfo>,
}

/// The inventory entry of a compute module, by location.
#[derive(Clone, Debug)]
pub struct HWInvByLocComputeModule {
    pub id: String,
    pub kind: Option<String>,
    pub ordinal: Option<u32>,
    pub status: Option<String>,
    pub hw_inventory_by_location_type: String,
    pub populated_fru: Option<HWInventoryByFRU>,
    pub compute_module_location_info: Option<RedfishChassisLocationInfo>,
    pub node_enclosures: Option<HWInvByLocNodeEnclosure>,
}

/// The inventory entry of a hsn board, by location.
#[derive(Clone, Debug)]
pub struct HWInvByLocHSNBoard {
    pub id: String,
    pub kind: Option<String>,
    pub ordinal: Option<u32>,
    pub status: Option<String>,
    pub hw_inventory_by_location_type: String,
    pub populated_fru: Option<HWInventoryByFRU>,
    pub hsn_board_location_info: Option<RedfishChassisLocationInfo>,
}

/// The inventory entry of a router module, by location.
#[derive(Clone, Debug)]
pub struct HWInvByLocRouterModule {
    pub id: String,
    pub kind: Option<String>,
    pub ordinal: Option<u32>,
    pub status: Option<String>,
    pub hw_inventory_by_location_type: String,
    pub populated_fru: Option<HWInventoryByFRU>,
    pub router_module_location_info: Option<RedfishChassisLocationInfo>,
    pub hsn_boards: Option<HWInvByLocHSNBoard>,
}

/// The inventory entry of a cabinet, by location.
#[derive(Clone, Debug)]
pub struct HWInvByLocCabinet {
    pub id: String,
    pub kind: Option<String>,
    pub ordinal: Option<u32>,
    pub status: Option<String>,
    pub hw_inventory_by_location_type: String,
    pub populated_fru: Option<HWInventoryByFRU>,
    pub cabinet_location_info: Option<RedfishChassisLocationInfo>,
    pub chassis: Option<HWInvByLocChassis>,
}

/// The inventory entry of a mgmt switch, by location.
#[derive(Clone, Debug)]
pub struct HWInvByLocMgmtSwitch {
    pub id: String,
    pub kind: Option<String>,
    pub ordinal: Option<u32>,
    pub status: Option<String>,
    pub hw_inventory_by_location_type: String,
    pub populated_fru: Option<HWInventoryByFRU>,
    pub mgmt_switch_location_info: Option<RedfishChassisLocationInfo>,
}

/// The inventory entry of a mgmthl switch, by location.
#[derive(Clone, Debug)]
pub struct HWInvByLocMgmtHLSwitch {
    pub id: String,
    pub kind: Option<String>,
    pub ordinal: Option<u32>,
    pub status: Option<String>,
    pub hw_inventory_by_location_type: String,
    pub populated_fru: Option<HWInventoryByFRU>,
    pub mgmt_hl_switch_location_info: Option<RedfishChassisLocationInfo>,
}

/// The inventory entry of a cdu mgmt switch, by location.
#[derive(Clone, Debug)]
pub struct HWInvByLocCDUMgmtSwitch {
    pub id: String,
    pub kind: Option<String>,
    pub ordinal: Option<u32>,
    pub status: Option<String>,
    pub hw_inventory_by_location_type: String,
    pub populated_fru: Option<HWInventoryByFRU>,
    pub cdu_mgmt_switch_location_info: Option<RedfishChassisLocationInfo>,
}

/// Part of an inventory entry.
#[derive(Clone, Debug)]
pub struct ProcessorSummary {
    pub count: Option<u32>,
    pub model: Option<String>,
}

/// Part of an inventory entry.
#[derive(Clone, Debug)]
pub struct MemorySummary {
    pub total_system_memory_gib: Option<u32>,
}

/// What Redfish tells of the place of a component.
#[derive(Clone, Debug)]
pub struct RedfishSystemLocationInfo {
    pub id: Option<String>,
    pub name: Option<String>,
    pub description: Option<String>,
    pub hostname: Option<String>,
    pub processor_summary: Option<ProcessorSummary>,
    pub memory_summary: Option<MemorySummary>,
}

/// What Redfish tells of the place of a component.
#[derive(Clone, Debug)]
pub struct RedfishProcessorLocationInfo {
    pub id: Option<String>,
    pub name: Option<String>,
    pub description: Option<String>,
    pub socket: Option<String>,
}

/// The inventory entry of a processor, by location.
#[derive(Clone, Debug)]
pub struct HWInvByLocProcessor {
    pub id: String,
    pub kind: Option<String>,
    pub ordinal: Option<u32>,
    pub status: Option<String>,
    pub hw_inventory_by_location_type: String,
    pub populated_fru: Option<HWInvByFRUProcessor>,
    pub processor_location_info: RedfishProcessorLocationInfo,
}

/// The inventory entry of a node accel, by location.
#[derive(Clone, Debug)]
pub struct HWInvByLocNodeAccel {
    pub id: String,
    pub kind: Option<String>,
    pub ordinal: Option<u32>,
    pub status: Option<String>,
    pub hw_inventory_by_location_type: String,
    pub populated_fru: Option<HWInvByFRUNodeAccel>,
    pub node_accel_location_info: Option<RedfishProcessorLocationInfo>,
}

/// What Redfish tells of the place of a component.
#[derive(Clone, Debug)]
pub struct RedfishDriveLocationInfo {
    pub id: Option<String>,
    pub name: Option<String>,
    pub description: Option<String>,
}

/// The inventory entry of a drive, by location.
#[derive(Clone, Debug)]
pub struct HWInvByLocDrive {
    pub id: String,
    pub kind: Option<String>,
    pub ordinal: Option<u32>,
    pub status: Option<String>,
    pub hw_inventory_by_location_type: String,
    pub populated_fru: Option<HWInventoryByFRU>,
    pub drive_location_info: Option<RedfishDriveLocationInfo>,
}

/// Part of an inventory entry.
#[derive(Clone, Debug)]
pub struct MemoryLocation {
    pub socket: Option<u32>,
    pub memory_controller: Option<u32>,
    pub channel: Option<u32>,
    pub slot: Option<u32>,
}

/// What Redfish tells of the place of a component.
#[derive(Clone, Debug)]
pub struct RedfishMemoryLocationInfo {
    pub id: Option<String>,
    pub name: Option<String>,
    pub description: Option<String>,
    pub memory_location: Option<MemoryLocation>,
}

/// The inventory entry of a memory, by location.
#[derive(Clone, Debug)]
pub struct HWInvByLocMemory {
    pub id: String,
    pub kind: Option<String>,
    pub ordinal: Option<u32>,
    pub status: Option<String>,
    pub hw_inventory_by_location_type: String,
    pub populated_fru: Option<HWInvByFRUMemory>,
    pub memory_location_info: RedfishMemoryLocationInfo,
}

/// What Redfish tells of the place of a component.
#[derive(Clone, Debug)]
pub struct RedfishNodeAccelRiserLocationInfo {
    pub name: Option<String>,
    pub description: Option<String>,
}

/// The inventory entry of a node accel riser, by location.
#[derive(Clone, Debug)]
pub struct HWInvByLocNodeAccelRiser {
    pub id: String,
    pub kind: Option<String>,
    pub ordinal: Option<u32>,
    pub status: Option<String>,
    pub hw_inventory_by_location_type: String,
    pub populated_fru: Option<HWInventoryByFRU>,
    pub node_accel_riser_location_info: Option<RedfishNodeAccelRiserLocationInfo>,
}

/// What Redfish tells of the place of a component.
#[derive(Clone, Debug)]
pub struct HSNNICLocationInfo {
    pub id: Option<String>,
    pub name: Option<String>,
    pub description: Option<String>,
}

/// The inventory entry of a hsnnic, by location.
#[derive(Clone, Debug)]
pub struct HWInvByLocHSNNIC {
    pub id: String,
    pub kind: Option<String>,
    pub ordinal: Option<u32>,
    pub status: Option<String>,
    pub hw_inventory_by_location_type: String,
    pub populated_fru: Option<HWInvByFRUHSNNIC>,
    pub hsn_nic_location_info: HSNNICLocationInfo,
}

/// The hardware inventory of a set of nodes.
#[derive(Clone, Debug)]
pub struct Hardware {
    pub hardware: Option<Vec<HWInvByLocNode>>,
}

/// The inventory entry of a node, by location.
#[derive(Clone, Debug)]
pub struct HWInvByLocNode {
    pub id: String,
    pub kind: Option<String>,
    pub ordinal: Option<u32>,
    pub status: Option<String>,
    pub hw_inventory_by_location_type: String,
    pub populated_fru: Option<HWInvByFRUNode>,
    pub node_location_info: Option<RedfishSystemLocationInfo>,
    pub processors: Option<Vec<HWInvByLocProcessor>>,
    pub node_accels: Option<Vec<HWInvByLocNodeAccel>>,
    pub drives: Option<Vec<HWInvByLocDrive>>,
    pub memory: Option<Vec<HWInvByLocMemory>>,
    pub node_accel_risers: Option<Vec<HWInvByLocNodeAccelRiser>>,
    pub node_hsn_nics: Option<Vec<HWInvByLocHSNNIC>>,
}

/// What Redfish tells of the place of a component.
#[derive(Clone, Debug)]
pub struct RedfishPDULocationInfo {
    pub id: Option<String>,
    pub name: Option<String>,
    pub description: Option<String>,
    pub uuid: Option<String>,
}

/// What Redfish tells of the place of a component.
#[derive(Clone, Debug)]
pub struct RedfishOutletLocationInfo {
    pub id: Option<String>,
    pub name: Option<String>,
    pub description: Option<String>,
}

/// The inventory entry of a outlet, by location.
#[derive(Clone, Debug)]
pub struct HWInvByLocOutlet {
    pub id: String,
    pub kind: Option<String>,
    pub ordinal: Option<u32>,
    pub status: Option<String>,
    pub hw_inventory_by_location_type: String,
    pub populated_fru: Option<HWInventoryByFRU>,
    pub outlet_location_info: Option<RedfishOutletLocationInfo>,
}

/// The inventory entry of a pdu, by location.
#[derive(Clone, Debug)]
pub struct HWInvByLocPDU {
    pub id: String,
    pub kind: Option<String>,
    pub ordinal: Option<u32>,
    pub status: Option<String>,
    pub hw_inventory_by_location_type: String,
    pub populated_fru: Option<HWInventoryByFRU>,
    pub pdu_location_info: Option<RedfishPDULocationInfo>,
    pub cabinet_pdu_power_connectors: Option<Vec<HWInvByLocOutlet>>,
}

/// What Redfish tells of the place of a component.
#[derive(Clone, Debug)]
pub struct RedfishCMMRectifierLocationInfo {
    pub name: Option<String>,
    pub firmware_version: Option<String>,
}

/// The inventory entry of a cmm rectifier, by location.
#[derive(Clone, Debug)]
pub struct HWInvByLocCMMRectifier {
    pub id: String,
    pub kind: Option<String>,
    pub ordinal: Option<u32>,
    pub status: Option<String>,
    pub hw_inventory_by_location_type: String,
    pub populated_fru: Option<HWInventoryByFRU>,
    pub cmm_rectifier_location_info: Option<RedfishCMMRectifierLocationInfo>,
}

/// What Redfish tells of the place of a component.
#[derive(Clone, Debug)]
pub struct RedfishNodeEnclosurePowerSupplyLocationInfo {
    pub name: Option<String>,
    pub firmware_version: Option<String>,
}

/// The inventory entry of a node power supply, by location.
#[derive(Clone, Debug)]
pub struct HWInvByLocNodePowerSupply {
    pub id: String,
    pub kind: Option<String>,
    pub ordinal: Option<u32>,
    pub status: Option<String>,
    pub hw_inventory_by_location_type: String,
    pub populated_fru: Option<HWInventoryByFRU>,
    pub node_enclosure_power_supply_location_info: Option<RedfishNodeEnclosurePowerSupplyLocationInfo>,
}

/// What Redfish tells of the place of a component.
#[derive(Clone, Debug)]
pub struct RedfishManagerLocationInfo {
    pub id: Option<String>,
    pub name: Option<String>,
    pub description: Option<String>,
    pub date_time: Option<String>,
    pub date_time_local_offset: Option<String>,
    pub firmware_version: Option<String>,
}

/// The inventory entry of a nodebmc, by location.
#[derive(Clone, Debug)]
pub struct HWInvByLocNodeBMC {
    pub id: String,
    pub kind: Option<String>,
    pub ordinal: Option<u32>,
    pub status: Option<String>,
    pub hw_inventory_by_location_type: String,
    pub populated_fru: Option<HWInventoryByFRU>,
    pub node_bmc_location_info: Option<RedfishManagerLocationInfo>,
}

/// The inventory entry of a routerbmc, by location.
#[derive(Clone, Debug)]
pub struct HWInvByLocRouterBMC {
    pub id: String,
    pub kind: Option<String>,
    pub ordinal: Option<u32>,
    pub status: Option<String>,
    pub hw_inventory_by_location_type: String,
    pub populated_fru: Option<HWInventoryByFRU>,
    pub router_bmc_location_info: Option<RedfishManagerLocationInfo>,
}

/// The hardware inventory of a location, by kind of component.
#[derive(Clone, Debug)]
pub struct HWInventory {
    pub xname: Option<String>,
    pub format: Option<String>,
    pub cabinets: Option<Vec<HWInvByLocCabinet>>,
    pub chassis: Option<Vec<HWInvByLocChassis>>,
    pub compute_modules: Option<Vec<HWInvByLocComputeModule>>,
    pub router_modules: Option<Vec<HWInvByLocRouterModule>>,
    pub node_enclosures: Option<Vec<HWInvByLocNodeEnclosure>>,
    pub hsn_boards: Option<Vec<HWInvByLocHSNBoard>>,
    pub mgmt_switches: Option<Vec<HWInvByLocMgmtSwitch>>,
    pub mgmt_hl_switches: Option<Vec<HWInvByLocMgmtHLSwitch>>,
    pub cdu_mgmt_switches: Option<Vec<HWInvByLocCDUMgmtSwitch>>,
    pub nodes: Option<Vec<HWInvByLocNode>>,
    pub processors: Option<Vec<HWInvByLocProcessor>>,
    pub node_accels: Option<Vec<HWInvByLocNodeAccel>>,
    pub drives: Option<Vec<HWInvByLocDrive>>,
    pub memory: Option<Vec<HWInvByLocMemory>>,
    pub cabinet_pdus: Option<Vec<HWInvByLocPDU>>,
    pub cabinet_pdu_power_connectors: Option<Vec<HWInvByLocOutlet>>,
    pub cmm_rectifiers: Option<Vec<HWInvByLocCMMRectifier>>,
    pub node_accel_risers: Option<Vec<HWInvByLocNodeAccelRiser>>,
    pub node_hsn_nics: Option<Vec<HWInvByLocHSNNIC>>,
    pub node_enclosure_power_supplies: Option<Vec<HWInvByLocNodePowerSupply>>,
    pub node_bmc: Option<Vec<HWInvByLocNodeBMC>>,
    pub router_bmc: Option<Vec<HWInvByLocRouterBMC>>,
}

/// The inventory entry of a node, by field-replaceable unit.
#[derive(Clone, Debug)]
pub struct HWInvByFRUNode {
    pub fru_id: Option<String>,
    pub kind: Option<String>,
    pub fru_sub_type: Option<String>,
    pub hw_inventory_by_fru_type: String,
    pub node_fru_info: RedfishSystemFRUInfo,
}

/// What Redfish tells of a field-replaceable unit.
#[derive(Clone, Debug)]
pub struct RedfishSystemFRUInfo {
    pub asset_tag: Option<String>,
    pub bios_version: Option<String>,
    pub model: Option<String>,
    pub manufacturer: Option<String>,
    pub part_number: Option<String>,
    pub serial_number: Option<String>,
    pub sku: Option<String>,
    pub system_type: Option<String>,
    pub uuid: Option<String>,
}

/// What Redfish tells of the place of a component.
#[derive(Clone, Debug)]
pub struct NodeLocationInfo {
    pub id: String,
    pub name: Option<String>,
    pub description: Option<String>,
    pub hostname: Option<String>,
    pub processor_summary: Option<ProcessorSummary>,
    pub memory_summary: Option<MemorySummary>,
}

/// An entry of the inventory by location, of one of the kinds that carry hardware details.
#[derive(Clone, Debug)]
pub enum HWInventoryByLocation {
    HWInvByLocNode(HWInvByLocNode),
    HWInvByLocProcessor(HWInvByLocProcessor),
    HWInvByLocNodeAccel(HWInvByLocNodeAccel),
    HWInvByLocMemory(HWInvByLocMemory),
    HWInvByLocHSNNIC(HWInvByLocHSNNIC),
}

/// A list of inventory entries by location.
#[derive(Clone, Debug)]
pub struct HWInventoryByLocationList {
    pub hardware: Option<Vec<HWInventoryByLocation>>,
}

} // verus!
