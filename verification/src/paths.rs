//! Where the application keeps its files.
//!
//! A path is held as its components from the root down (`Vec<String>`); every
//! path of the application is a fixed list of names below one of two base
//! directories, which the program finds in its environment.
use vstd::prelude::*;
use crate::text::string_views;

verus! {

/// The base directories from which every application path is built.
pub struct BaseDirs {
    /// The directory of the running program (or the workspace it is run from).
    pub runtime_root: Vec<String>,
    /// The user's local data directory, where the platform has one.
    pub data_local_dir: Option<Vec<String>>,
}

/// The components of a path, as character sequences.
pub open spec fn path_view(p: Seq<String>) -> Seq<Seq<char>> {
    string_views(p)
}

/// The runtime root of `d`.
pub open spec fn runtime_of(d: BaseDirs) -> Seq<Seq<char>> {
    path_view(d.runtime_root@)
}

/// The local data directory, or the runtime root where there is none.
pub open spec fn local_data_of(d: BaseDirs) -> Seq<Seq<char>> {
    match d.data_local_dir {
        Some(v) => path_view(v@),
        None => runtime_of(d),
    }
}

/// A copy of a path.
fn path_copy(src: &Vec<String>) -> (r: Vec<String>)
    ensures
        path_view(r@) == path_view(src@),
{
    let n = src.len();
    let mut r: Vec<String> = Vec::new();
    let mut i: usize = 0;
    while i < n
        invariant
            n == src@.len(),
            i <= n,
            r@.len() == i,
            forall|j: int| 0 <= j < i ==> (#[trigger] r@[j])@ == src@[j]@,
        decreases n - i,
    {
        let c = src[i].clone();
        r.push(c);
        i = i + 1;
    }
    assert(path_view(r@) =~= path_view(src@));
    r
}

/// `base` with one more component.
fn path_join(base: &Vec<String>, part: &str) -> (r: Vec<String>)
    ensures
        path_view(r@) == path_view(base@).push(part@),
{
    let mut r = path_copy(base);
    let last = part.to_string();
    proof {
        assert(last@ == part@);
    }
    let ghost before = r@;
    r.push(last);
    assert(r@ == before.push(last));
    assert(path_view(r@) =~= path_view(base@).push(part@));
    r
}

/// `local_data_root`: the user's local data directory, or the runtime root.
pub fn local_data_root(d: &BaseDirs) -> (r: Vec<String>)
    ensures
        path_view(r@) == local_data_of(*d),
{
    match &d.data_local_dir {
        Some(v) => path_copy(v),
        None => path_copy(&d.runtime_root),
    }
}

/// The application's configuration directory.
pub open spec fn config_root_of(d: BaseDirs) -> Seq<Seq<char>> {
    local_data_of(d).push("dwas_kr"@)
}

/// The application's configuration directory.
pub fn config_root(d: &BaseDirs) -> (r: Vec<String>)
    ensures
        path_view(r@) == config_root_of(*d),
{
    let base = local_data_root(d);
    path_join(&base, "dwas_kr")
}

/// The application's data directory.
pub open spec fn lpmbox_data_root_of(d: BaseDirs) -> Seq<Seq<char>> {
    config_root_of(d).push("LPMBox"@)
}

/// The application's data directory.
pub fn lpmbox_data_root(d: &BaseDirs) -> (r: Vec<String>)
    ensures
        path_view(r@) == lpmbox_data_root_of(*d),
{
    let base = config_root(d);
    path_join(&base, "LPMBox")
}

/// Where earlier releases kept their configuration.
pub open spec fn legacy_config_root_of(d: BaseDirs) -> Seq<Seq<char>> {
    local_data_of(d).push("LPMBox"@)
}

/// Where earlier releases kept their configuration.
pub fn legacy_config_root(d: &BaseDirs) -> (r: Vec<String>)
    ensures
        path_view(r@) == legacy_config_root_of(*d),
{
    let base = local_data_root(d);
    path_join(&base, "LPMBox")
}

/// The file that holds the chosen language.
pub open spec fn language_config_path_of(d: BaseDirs) -> Seq<Seq<char>> {
    config_root_of(d).push("language.txt"@)
}

/// The file that holds the chosen language.
pub fn language_config_path(d: &BaseDirs) -> (r: Vec<String>)
    ensures
        path_view(r@) == language_config_path_of(*d),
{
    let base = config_root(d);
    path_join(&base, "language.txt")
}

/// The directory of the adb key that survives updates.
pub open spec fn stable_adb_key_dir_of(d: BaseDirs) -> Seq<Seq<char>> {
    config_root_of(d).push("adb"@)
}

/// The directory of the adb key that survives updates.
pub fn stable_adb_key_dir(d: &BaseDirs) -> (r: Vec<String>)
    ensures
        path_view(r@) == stable_adb_key_dir_of(*d),
{
    let base = config_root(d);
    path_join(&base, "adb")
}

/// The adb private key that survives updates.
pub open spec fn stable_adb_key_path_of(d: BaseDirs) -> Seq<Seq<char>> {
    stable_adb_key_dir_of(d).push("adbkey"@)
}

/// The adb private key that survives updates.
pub fn stable_adb_key_path(d: &BaseDirs) -> (r: Vec<String>)
    ensures
        path_view(r@) == stable_adb_key_path_of(*d),
{
    let base = stable_adb_key_dir(d);
    path_join(&base, "adbkey")
}

/// Where the bundled tools are unpacked.
pub open spec fn embedded_tools_root_of(d: BaseDirs) -> Seq<Seq<char>> {
    lpmbox_data_root_of(d).push("embedded_tools"@)
}

/// Where the bundled tools are unpacked.
pub fn embedded_tools_root(d: &BaseDirs) -> (r: Vec<String>)
    ensures
        path_view(r@) == embedded_tools_root_of(*d),
{
    let base = lpmbox_data_root(d);
    path_join(&base, "embedded_tools")
}

/// The adb key beside the program, where earlier releases kept it.
pub open spec fn runtime_adb_key_path_of(d: BaseDirs) -> Seq<Seq<char>> {
    runtime_of(d).push("adb"@).push("adbkey"@)
}

/// The adb key beside the program, where earlier releases kept it.
pub fn runtime_adb_key_path(d: &BaseDirs) -> (r: Vec<String>)
    ensures
        path_view(r@) == runtime_adb_key_path_of(*d),
{
    let base = path_copy(&d.runtime_root);
    let mid = path_join(&base, "adb");
    path_join(&mid, "adbkey")
}

/// The directory of downloaded tools.
pub open spec fn tool_dir_of(d: BaseDirs) -> Seq<Seq<char>> {
    runtime_of(d).push("tools"@)
}

/// The directory of downloaded tools.
pub fn tool_dir(d: &BaseDirs) -> (r: Vec<String>)
    ensures
        path_view(r@) == tool_dir_of(*d),
{
    let base = path_copy(&d.runtime_root);
    path_join(&base, "tools")
}

/// The directory of downloaded archives.
pub open spec fn tool_download_dir_of(d: BaseDirs) -> Seq<Seq<char>> {
    tool_dir_of(d).push("download"@)
}

/// The directory of downloaded archives.
pub fn tool_download_dir(d: &BaseDirs) -> (r: Vec<String>)
    ensures
        path_view(r@) == tool_download_dir_of(*d),
{
    let base = tool_dir(d);
    path_join(&base, "download")
}

/// The SP Flash Tool archive.
pub open spec fn spflashtoolv6_zip_path_of(d: BaseDirs) -> Seq<Seq<char>> {
    tool_download_dir_of(d).push("SP_Flash_Tool_V6.2404_Win.zip"@)
}

/// The SP Flash Tool archive.
pub fn spflashtoolv6_zip_path(d: &BaseDirs) -> (r: Vec<String>)
    ensures
        path_view(r@) == spflashtoolv6_zip_path_of(*d),
{
    let base = tool_download_dir(d);
    path_join(&base, "SP_Flash_Tool_V6.2404_Win.zip")
}

/// Where the MediaTek driver is unpacked.
pub open spec fn mtk_driver_dir_of(d: BaseDirs) -> Seq<Seq<char>> {
    tool_dir_of(d).push("MTK-Driver"@)
}

/// Where the MediaTek driver is unpacked.
pub fn mtk_driver_dir(d: &BaseDirs) -> (r: Vec<String>)
    ensures
        path_view(r@) == mtk_driver_dir_of(*d),
{
    let base = tool_dir(d);
    path_join(&base, "MTK-Driver")
}

/// The MediaTek driver archive.
pub open spec fn mtk_driver_zip_path_of(d: BaseDirs) -> Seq<Seq<char>> {
    tool_download_dir_of(d).push("MTK-Driver-v5.1632.zip"@)
}

/// The MediaTek driver archive.
pub fn mtk_driver_zip_path(d: &BaseDirs) -> (r: Vec<String>)
    ensures
        path_view(r@) == mtk_driver_zip_path_of(*d),
{
    let base = tool_download_dir(d);
    path_join(&base, "MTK-Driver-v5.1632.zip")
}

/// The 32-bit Visual C++ runtime installer.
pub open spec fn vc_redist_x86_path_of(d: BaseDirs) -> Seq<Seq<char>> {
    tool_download_dir_of(d).push("VC_redist.x86.exe"@)
}

/// The 32-bit Visual C++ runtime installer.
pub fn vc_redist_x86_path(d: &BaseDirs) -> (r: Vec<String>)
    ensures
        path_view(r@) == vc_redist_x86_path_of(*d),
{
    let base = tool_download_dir(d);
    path_join(&base, "VC_redist.x86.exe")
}

/// The 64-bit Visual C++ runtime installer.
pub open spec fn vc_redist_x64_path_of(d: BaseDirs) -> Seq<Seq<char>> {
    tool_download_dir_of(d).push("VC_redist.x64.exe"@)
}

/// The 64-bit Visual C++ runtime installer.
pub fn vc_redist_x64_path(d: &BaseDirs) -> (r: Vec<String>)
    ensures
        path_view(r@) == vc_redist_x64_path_of(*d),
{
    let base = tool_download_dir(d);
    path_join(&base, "VC_redist.x64.exe")
}

/// The directory of logs.
pub open spec fn log_dir_of(d: BaseDirs) -> Seq<Seq<char>> {
    runtime_of(d).push("logs"@)
}

/// The directory of logs.
pub fn log_dir(d: &BaseDirs) -> (r: Vec<String>)
    ensures
        path_view(r@) == log_dir_of(*d),
{
    let base = path_copy(&d.runtime_root);
    path_join(&base, "logs")
}

/// The directory of backups.
pub open spec fn backup_root_of(d: BaseDirs) -> Seq<Seq<char>> {
    runtime_of(d).push("backup"@)
}

/// The directory of backups.
pub fn backup_root(d: &BaseDirs) -> (r: Vec<String>)
    ensures
        path_view(r@) == backup_root_of(*d),
{
    let base = path_copy(&d.runtime_root);
    path_join(&base, "backup")
}

/// The directory of SP Flash Tool logs.
pub open spec fn spft_log_dir_of(d: BaseDirs) -> Seq<Seq<char>> {
    backup_root_of(d).push("spft_log"@)
}

/// The directory of SP Flash Tool logs.
pub fn spft_log_dir(d: &BaseDirs) -> (r: Vec<String>)
    ensures
        path_view(r@) == spft_log_dir_of(*d),
{
    let base = backup_root(d);
    path_join(&base, "spft_log")
}

/// The backup of the proinfo partition.
pub open spec fn proinfo_backup_path_of(d: BaseDirs) -> Seq<Seq<char>> {
    backup_root_of(d).push("proinfo"@)
}

/// The backup of the proinfo partition.
pub fn proinfo_backup_path(d: &BaseDirs) -> (r: Vec<String>)
    ensures
        path_view(r@) == proinfo_backup_path_of(*d),
{
    let base = backup_root(d);
    path_join(&base, "proinfo")
}

/// The readback configuration handed to SP Flash Tool.
pub open spec fn readback_config_xml_path_of(d: BaseDirs) -> Seq<Seq<char>> {
    runtime_of(d).push("readback_config.xml"@)
}

/// The readback configuration handed to SP Flash Tool.
pub fn readback_config_xml_path(d: &BaseDirs) -> (r: Vec<String>)
    ensures
        path_view(r@) == readback_config_xml_path_of(*d),
{
    let base = path_copy(&d.runtime_root);
    path_join(&base, "readback_config.xml")
}

/// The SP Flash Tool directory: the bundled tools' directory.
pub open spec fn spflashtoolv6_dir_of(d: BaseDirs) -> Seq<Seq<char>> {
    embedded_tools_root_of(d)
}

/// The SP Flash Tool directory: the bundled tools' directory.
pub fn spflashtoolv6_dir(d: &BaseDirs) -> (r: Vec<String>)
    ensures
        path_view(r@) == spflashtoolv6_dir_of(*d),
{
    embedded_tools_root(d)
}

/// The runtime root the program settles on: the current directory when it is
/// the project's workspace, else the program's directory, else the current
/// directory, else the temporary directory.
pub open spec fn runtime_root_choice(
    current_dir: Option<Seq<Seq<char>>>,
    current_dir_is_workspace: bool,
    exe_parent: Option<Seq<Seq<char>>>,
    temp_dir: Seq<Seq<char>>,
) -> Seq<Seq<char>> {
    match current_dir {
        Some(c) if current_dir_is_workspace => c,
        _ => match exe_parent {
            Some(e) => e,
            None => match current_dir {
                Some(c) => c,
                None => temp_dir,
            },
        },
    }
}

/// The view of an optional path.
pub open spec fn opt_path_view(p: Option<Vec<String>>) -> Option<Seq<Seq<char>>> {
    match p {
        Some(v) => Some(path_view(v@)),
        None => None,
    }
}

/// `runtime_root`, from what the environment gave: the current directory (if it
/// could be read) and whether it holds the workspace's `Cargo.toml` and
/// `crates`, the directory of the program's executable (if known), and the
/// temporary directory.
pub fn runtime_root(
    current_dir: Option<Vec<String>>,
    current_dir_is_workspace: bool,
    exe_parent: Option<Vec<String>>,
    temp_dir: Vec<String>,
) -> (r: Vec<String>)
    ensures
        path_view(r@) == runtime_root_choice(
            opt_path_view(current_dir),
            current_dir_is_workspace,
            opt_path_view(exe_parent),
            path_view(temp_dir@),
        ),
{
    match current_dir {
        Some(c) if current_dir_is_workspace => c,
        cd => match exe_parent {
            Some(e) => e,
            None => match cd {
                Some(c) => c,
                None => temp_dir,
            },
        },
    }
}

/// The directories the program creates before it runs, in order.
pub open spec fn runtime_directories_of(d: BaseDirs) -> Seq<Seq<Seq<char>>> {
    seq![
        tool_dir_of(d),
        tool_download_dir_of(d),
        backup_root_of(d),
        log_dir_of(d),
        stable_adb_key_dir_of(d),
        lpmbox_data_root_of(d),
    ]
}

/// The views of a list of paths.
pub open spec fn paths_view(ps: Seq<Vec<String>>) -> Seq<Seq<Seq<char>>> {
    ps.map_values(|p: Vec<String>| path_view(p@))
}

/// The directories the program creates before it runs, in order (after the
/// migration of earlier releases' data).
pub fn runtime_directories(d: &BaseDirs) -> (r: Vec<Vec<String>>)
    ensures
        paths_view(r@) == runtime_directories_of(*d),
{
    let mut r: Vec<Vec<String>> = Vec::new();
    r.push(tool_dir(d));
    r.push(tool_download_dir(d));
    r.push(backup_root(d));
    r.push(log_dir(d));
    r.push(stable_adb_key_dir(d));
    r.push(lpmbox_data_root(d));
    assert(paths_view(r@) =~= runtime_directories_of(*d));
    r
}

/// One step of moving an earlier release's data to where it is kept now.
pub enum MigrationStep {
    /// Move one file, if it is there.
    MoveFile { source: Vec<String>, destination: Vec<String> },
    /// Move a directory's contents, if it is there.
    MoveDirectoryContents { source: Vec<String>, destination: Vec<String> },
    /// Remove a directory if it is empty.
    RemoveEmptyDirectory { path: Vec<String> },
}

/// What a `MigrationStep` says, over path views.
pub enum MigrationStepView {
    MoveFile(Seq<Seq<char>>, Seq<Seq<char>>),
    MoveDirectoryContents(Seq<Seq<char>>, Seq<Seq<char>>),
    RemoveEmptyDirectory(Seq<Seq<char>>),
}

impl View for MigrationStep {
    type V = MigrationStepView;

    open spec fn view(&self) -> MigrationStepView {
        match self {
            MigrationStep::MoveFile { source, destination } => MigrationStepView::MoveFile(
                path_view(source@),
                path_view(destination@),
            ),
            MigrationStep::MoveDirectoryContents { source, destination } =>
                MigrationStepView::MoveDirectoryContents(path_view(source@), path_view(destination@)),
            MigrationStep::RemoveEmptyDirectory { path } => MigrationStepView::RemoveEmptyDirectory(
                path_view(path@),
            ),
        }
    }
}

/// The views of a list of steps.
pub open spec fn steps_view(steps: Seq<MigrationStep>) -> Seq<MigrationStepView> {
    steps.map_values(|s: MigrationStep| s@)
}

/// The steps that move an earlier release's data, when its directory exists:
/// the adb key pair, the language setting and the bundled tools go to the
/// configuration directory, and the emptied directories are removed.
pub open spec fn migration_plan(d: BaseDirs, legacy_root_exists: bool) -> Seq<MigrationStepView> {
    let legacy = legacy_config_root_of(d);
    if !legacy_root_exists {
        seq![]
    } else {
        seq![
            MigrationStepView::MoveFile(legacy.push("adb"@).push("adbkey"@), stable_adb_key_path_of(d)),
            MigrationStepView::MoveFile(
                legacy.push("adb"@).push("adbkey.pub"@),
                stable_adb_key_dir_of(d).push("adbkey.pub"@),
            ),
            MigrationStepView::MoveFile(legacy.push("language.txt"@), language_config_path_of(d)),
            MigrationStepView::MoveDirectoryContents(
                legacy.push("embedded_tools"@),
                embedded_tools_root_of(d),
            ),
            MigrationStepView::RemoveEmptyDirectory(legacy.push("adb"@)),
            MigrationStepView::RemoveEmptyDirectory(legacy),
        ]
    }
}

/// `migrate_legacy_user_data`: the steps that move the data of an earlier
/// release (kept under `legacy_config_root`) to the configuration directory;
/// none when that directory does not exist. They are run in order, and the
/// first that fails ends the migration.
pub fn migrate_legacy_user_data(d: &BaseDirs, legacy_root_exists: bool) -> (r: Vec<MigrationStep>)
    ensures
        steps_view(r@) == migration_plan(*d, legacy_root_exists),
{
    let mut r: Vec<MigrationStep> = Vec::new();
    if !legacy_root_exists {
        assert(steps_view(r@) =~= migration_plan(*d, legacy_root_exists));
        return r;
    }
    let legacy = legacy_config_root(d);
    let legacy_adb = path_join(&legacy, "adb");
    r.push(MigrationStep::MoveFile {
        source: path_join(&legacy_adb, "adbkey"),
        destination: stable_adb_key_path(d),
    });
    r.push(MigrationStep::MoveFile {
        source: path_join(&legacy_adb, "adbkey.pub"),
        destination: path_join(&stable_adb_key_dir(d), "adbkey.pub"),
    });
    r.push(MigrationStep::MoveFile {
        source: path_join(&legacy, "language.txt"),
        destination: language_config_path(d),
    });
    r.push(MigrationStep::MoveDirectoryContents {
        source: path_join(&legacy, "embedded_tools"),
        destination: embedded_tools_root(d),
    });
    r.push(MigrationStep::RemoveEmptyDirectory { path: legacy_adb });
    r.push(MigrationStep::RemoveEmptyDirectory { path: legacy });
    assert(steps_view(r@) =~= migration_plan(*d, legacy_root_exists));
    r
}

/// What moving one file does, by whether the source is a file and whether the
/// destination exists.
#[derive(Debug, Clone, Copy, PartialEq, Eq, Structural)]
pub enum FileMoveAction {
    /// There is nothing to move.
    Nothing,
    /// The destination is already there: the source is removed.
    RemoveSource,
    /// The source is renamed to the destination (copied and removed where a
    /// rename fails), after the destination's parent is created.
    Rename,
}

/// The action of `move_file_if_present`.
pub fn file_move_action(source_is_file: bool, destination_exists: bool) -> (r: FileMoveAction)
    ensures
        r == (if !source_is_file {
            FileMoveAction::Nothing
        } else if destination_exists {
            FileMoveAction::RemoveSource
        } else {
            FileMoveAction::Rename
        }),
{
    if !source_is_file {
        FileMoveAction::Nothing
    } else if destination_exists {
        FileMoveAction::RemoveSource
    } else {
        FileMoveAction::Rename
    }
}

/// What moving a directory's contents does first.
#[derive(Debug, Clone, Copy, PartialEq, Eq, Structural)]
pub enum DirectoryMoveAction {
    /// The source is not a directory.
    Nothing,
    /// The destination does not exist: try renaming the whole directory, and
    /// merge entry by entry if that fails.
    RenameOrMerge,
    /// The destination exists: merge entry by entry.
    Merge,
}

/// The first action of `move_directory_contents_if_present`.
pub fn directory_move_action(source_is_dir: bool, destination_exists: bool) -> (r: DirectoryMoveAction)
    ensures
        r == (if !source_is_dir {
            DirectoryMoveAction::Nothing
        } else if !destination_exists {
            DirectoryMoveAction::RenameOrMerge
        } else {
            DirectoryMoveAction::Merge
        }),
{
    if !source_is_dir {
        DirectoryMoveAction::Nothing
    } else if !destination_exists {
        DirectoryMoveAction::RenameOrMerge
    } else {
        DirectoryMoveAction::Merge
    }
}

/// The adb key the program uses: the stable one when it is there or when there
/// is no key beside the program; else the one beside the program, moved to the
/// stable place where that worked.
pub open spec fn adb_key_choice(
    d: BaseDirs,
    stable_is_file: bool,
    legacy_is_file: bool,
    legacy_moved: bool,
) -> Seq<Seq<char>> {
    if stable_is_file || !legacy_is_file || legacy_moved {
        stable_adb_key_path_of(d)
    } else {
        runtime_adb_key_path_of(d)
    }
}

/// `adb_key_path`, from what the file system showed after the migration:
/// whether the stable key is a file, whether the key beside the program is a
/// file, and (only asked when the first is not and the second is) whether
/// moving it to the stable place succeeded.
pub fn adb_key_path(d: &BaseDirs, stable_is_file: bool, legacy_is_file: bool, legacy_moved: bool) -> (r:
    Vec<String>)
    ensures
        path_view(r@) == adb_key_choice(*d, stable_is_file, legacy_is_file, legacy_moved),
{
    if stable_is_file || !legacy_is_file || legacy_moved {
        stable_adb_key_path(d)
    } else {
        runtime_adb_key_path(d)
    }
}

/// Whether path `p` lies below (or is) directory `base`.
pub open spec fn below(p: Seq<Seq<char>>, base: Seq<Seq<char>>) -> bool {
    base.len() <= p.len() && p.subrange(0, base.len() as int) == base
}

/// The configuration, key and bundled-tool paths lie below the local data
/// directory; the downloads, logs, backups and the key beside the program lie
/// below the runtime root.
pub proof fn lemma_paths_below_their_bases(d: BaseDirs)
    ensures
        below(config_root_of(d), local_data_of(d)),
        below(lpmbox_data_root_of(d), local_data_of(d)),
        below(legacy_config_root_of(d), local_data_of(d)),
        below(language_config_path_of(d), local_data_of(d)),
        below(stable_adb_key_path_of(d), local_data_of(d)),
        below(embedded_tools_root_of(d), local_data_of(d)),
        below(runtime_adb_key_path_of(d), runtime_of(d)),
        below(spflashtoolv6_zip_path_of(d), runtime_of(d)),
        below(mtk_driver_dir_of(d), runtime_of(d)),
        below(mtk_driver_zip_path_of(d), runtime_of(d)),
        below(vc_redist_x86_path_of(d), runtime_of(d)),
        below(vc_redist_x64_path_of(d), runtime_of(d)),
        below(log_dir_of(d), runtime_of(d)),
        below(spft_log_dir_of(d), runtime_of(d)),
        below(proinfo_backup_path_of(d), runtime_of(d)),
        below(readback_config_xml_path_of(d), runtime_of(d)),
{
    let l = local_data_of(d);
    let r = runtime_of(d);
    assert(config_root_of(d).subrange(0, l.len() as int) =~= l);
    assert(lpmbox_data_root_of(d).subrange(0, l.len() as int) =~= l);
    assert(legacy_config_root_of(d).subrange(0, l.len() as int) =~= l);
    assert(language_config_path_of(d).subrange(0, l.len() as int) =~= l);
    assert(stable_adb_key_path_of(d).subrange(0, l.len() as int) =~= l);
    assert(embedded_tools_root_of(d).subrange(0, l.len() as int) =~= l);
    assert(runtime_adb_key_path_of(d).subrange(0, r.len() as int) =~= r);
    assert(spflashtoolv6_zip_path_of(d).subrange(0, r.len() as int) =~= r);
    assert(mtk_driver_dir_of(d).subrange(0, r.len() as int) =~= r);
    assert(mtk_driver_zip_path_of(d).subrange(0, r.len() as int) =~= r);
    assert(vc_redist_x86_path_of(d).subrange(0, r.len() as int) =~= r);
    assert(vc_redist_x64_path_of(d).subrange(0, r.len() as int) =~= r);
    assert(log_dir_of(d).subrange(0, r.len() as int) =~= r);
    assert(spft_log_dir_of(d).subrange(0, r.len() as int) =~= r);
    assert(proinfo_backup_path_of(d).subrange(0, r.len() as int) =~= r);
    assert(readback_config_xml_path_of(d).subrange(0, r.len() as int) =~= r);
}

} // verus!
