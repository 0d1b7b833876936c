//! The data that flows between firmware inspection, flashing and the device.
use vstd::prelude::*;
use std::path::PathBuf;

verus! {

/// `std::path::PathBuf`, carried through the library as an opaque value.
#[verifier::external_type_specification]
#[verifier::external_body]
pub struct ExPathBuf(PathBuf);

/// `std::io::Error`, carried through the library as an opaque value.
#[verifier::external_type_specification]
#[verifier::external_body]
pub struct ExIoError(std::io::Error);

/// The errors of the tool.
#[derive(Debug)]
pub enum LpmError {
    Io(std::io::Error),
    FileNotFound(String),
    InvalidFirmwareFolder(String),
    Spft(String),
    Adb(String),
    Fastboot(String),
}

impl From<std::io::Error> for LpmError {
    /// An I/O error of the tool.
    fn from(e: std::io::Error) -> (r: Self) {
        LpmError::Io(e)
    }
}

impl vstd::std_specs::convert::FromSpecImpl<std::io::Error> for LpmError {
    open spec fn obeys_from_spec() -> bool {
        true
    }

    open spec fn from_spec(e: std::io::Error) -> Self {
        LpmError::Io(e)
    }
}

/// The region a ROM is built for.
#[derive(Debug, Clone, Copy, PartialEq, Eq, Structural)]
pub enum RomRegion {
    Prc,
    Row,
    Unknown,
}

/// How a firmware is installed.
#[derive(Debug, Clone, Copy, PartialEq, Eq, Structural)]
pub enum InstallMode {
    ConvertWipe,
    RowUpdateKeepData,
    ReinstallWipe,
    CountryReset,
}

/// Which partition patch plan applies.
#[derive(Debug, Clone, Copy, PartialEq, Eq, Structural)]
pub enum PatchPlanMode {
    ConvertWipe,
    RowUpdateKeepData,
    ReinstallWipe,
    CountryReset,
}

/// One partition entry of a scatter file.
#[derive(Debug, Clone)]
pub struct ScatterPartition {
    pub name: String,
    pub partition_index: Option<String>,
    pub file_name: Option<String>,
    pub is_download: Option<String>,
    pub is_upgradable: Option<String>,
    pub partition_type: Option<String>,
    pub storage: Option<String>,
    pub linear_start_addr: Option<String>,
    pub physical_start_addr: Option<String>,
    pub partition_size: Option<String>,
}

/// Which of the partitions a flash needs are present.
#[derive(Debug, Clone)]
pub struct RequiredPartitionCheck {
    pub has_proinfo: bool,
    pub has_userdata: bool,
    pub has_super: bool,
    pub has_boot_ab: bool,
    pub has_vendor_boot_ab: bool,
    pub has_init_boot_ab: bool,
    pub has_vbmeta_ab: bool,
    pub has_vbmeta_system_ab: bool,
    pub has_vbmeta_vendor_ab: bool,
    pub has_lk_ab: bool,
    pub has_dtbo_ab: bool,
    pub all_required_ok: bool,
    pub missing_partitions: Vec<String>,
}

/// A change a patch plan makes to one partition.
#[derive(Debug, Clone)]
pub struct PartitionPatchAction {
    pub partition: String,
    pub target_file_name: Option<String>,
    pub target_is_download: Option<String>,
    pub target_is_upgradable: Option<String>,
    pub reason: String,
}

/// A plan of partition changes.
#[derive(Debug, Clone)]
pub struct PatchPlan {
    pub mode: PatchPlanMode,
    pub title: String,
    pub available: bool,
    pub warnings: Vec<String>,
    pub actions: Vec<PartitionPatchAction>,
}

/// The partitions after a plan was applied.
#[derive(Debug, Clone)]
pub struct PatchedPartitionSnapshot {
    pub mode: PatchPlanMode,
    pub title: String,
    pub available: bool,
    pub changed_count: usize,
    pub partitions: Vec<ScatterPartition>,
    pub summary: Vec<String>,
}

/// What the check of an applied plan found.
#[derive(Debug, Clone)]
pub struct PatchValidationResult {
    pub mode: PatchPlanMode,
    pub title: String,
    pub passed: bool,
    pub errors: Vec<String>,
    pub warnings: Vec<String>,
}

/// What a scatter file holds, with the plans derived from it.
#[derive(Debug, Clone)]
pub struct ScatterXmlInfo {
    pub root_name: String,
    pub xml_size: usize,
    pub partition_count: usize,
    pub partition_names: Vec<String>,
    pub partitions: Vec<ScatterPartition>,
    pub required_check: RequiredPartitionCheck,
    pub patch_plans: Vec<PatchPlan>,
    pub patched_snapshots: Vec<PatchedPartitionSnapshot>,
    pub patch_validations: Vec<PatchValidationResult>,
}

/// Whether a firmware version is on the list of versions not to install.
#[derive(Debug, Clone)]
pub struct BlockedFirmwareCheck {
    pub checked: bool,
    pub blocked: bool,
    pub source: String,
    pub model: String,
    pub version: Option<String>,
    pub blocked_versions: Vec<String>,
    pub matched_version: Option<String>,
    pub message: String,
}

/// What was learnt of a firmware folder.
#[derive(Debug)]
pub struct FirmwareInfo {
    pub image_dir: PathBuf,
    pub model: String,
    pub version: Option<String>,
    pub region: RomRegion,
    pub platform: Option<String>,
    pub blocked_firmware_check: BlockedFirmwareCheck,
    pub flash_xml: Option<PathBuf>,
    pub scatter_xml: Option<PathBuf>,
    pub scatter_xml_info: Option<ScatterXmlInfo>,
}

/// Everything a flash needs.
#[derive(Debug)]
pub struct FlashPlan {
    pub mode: InstallMode,
    pub patch_mode: PatchPlanMode,
    pub title: String,
    pub root_dir: PathBuf,
    pub image_dir: PathBuf,
    pub work_dir: PathBuf,
    pub work_download_agent_dir: PathBuf,
    pub source_flash_xml: PathBuf,
    pub source_scatter: PathBuf,
    pub work_flash_xml: PathBuf,
    pub work_scatter_xml: PathBuf,
    pub da_path: PathBuf,
    pub platform: String,
    pub model: String,
    pub image_version: Option<String>,
    pub image_region: RomRegion,
    pub keep_user_data: bool,
    pub requires_current_slot_stage: bool,
    pub requires_device_stage: bool,
    pub requires_proinfo_patch: bool,
    pub spft_command_preview: String,
}

/// A prepared flash with the data it was prepared from.
#[derive(Debug)]
pub struct FlashPreparedOutput {
    pub firmware: FirmwareInfo,
    pub plan: FlashPlan,
    pub selected_patch_plan: PatchPlan,
    pub selected_patch_validation: Option<PatchValidationResult>,
    pub generated_scatter_info: ScatterXmlInfo,
    pub changed_count: usize,
}

/// Where a `proinfo` read-back takes its inputs and puts its outputs.
#[derive(Debug)]
pub struct ProinfoReadbackPlan {
    pub root_dir: PathBuf,
    pub image_dir: PathBuf,
    pub embedded_tool_used: bool,
    pub embedded_tool_dir: PathBuf,
    pub spft_exe: PathBuf,
    pub flash_xml: PathBuf,
    pub backup_dir: PathBuf,
    pub log_dir: PathBuf,
    pub config_xml: PathBuf,
    pub proinfo_out: PathBuf,
    pub config_xml_size: usize,
}

/// What a `proinfo` read-back produced.
#[derive(Debug)]
pub struct ProinfoReadbackResult {
    pub plan: ProinfoReadbackPlan,
    pub exit_code: Option<i32>,
    pub stdout_tail: String,
    pub stderr_tail: String,
    pub proinfo_exists: bool,
    pub proinfo_size: u64,
}

/// Progress reported by the flash tool.
#[derive(Debug, Clone)]
pub struct SpftProgress {
    pub stage: String,
    pub percent: u8,
}

/// What a running flash-tool job reports.
#[derive(Debug)]
pub enum ProinfoLiveEvent {
    Log(String),
    Progress(SpftProgress),
    Finished(ProinfoReadbackResult),
    Error(String),
}

/// Whether a device in PreLoader mode was found.
#[derive(Debug, Clone)]
pub struct PreloaderDetectResult {
    pub detected: bool,
    pub display_name: Option<String>,
    pub method: Option<String>,
    pub checked_tokens: Vec<String>,
}

} // verus!
