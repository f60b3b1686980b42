//! The files that the setup keeps on the computer.
use vstd::prelude::*;
use crate::console::{on_stdout, stdout, Line};
use crate::text::texts;

verus! {

/// The least size of a pairing helper that is worth extracting, in bytes.
pub const LEAST_HELPER_SIZE: usize = 1_000_000;

/// The setup carries no usable pairing helper.
pub const NO_HELPER: &'static str = "內嵌 Pairing Helper 無效。";

/// The folders that the setup's own folders stand in. Each is named by a variable of
/// the environment, and the temporary folder takes its place where that is not set.
#[derive(Clone, Copy, Debug, PartialEq, Eq, Structural)]
pub enum BaseDir {
    LocalAppData,
    UserProfile,
}

/// The variable of the environment that names the folder.
pub open spec fn base_variable(base: BaseDir) -> Seq<char> {
    match base {
        BaseDir::LocalAppData => "LOCALAPPDATA"@,
        BaseDir::UserProfile => "USERPROFILE"@,
    }
}

/// The variable of the environment that names the folder.
pub fn variable_name(base: BaseDir) -> (r: &'static str)
    ensures
        r@ == base_variable(base),
{
    match base {
        BaseDir::LocalAppData => "LOCALAPPDATA",
        BaseDir::UserProfile => "USERPROFILE",
    }
}

/// The folder that the environment names, or the temporary folder.
pub fn base_or_temp<P>(named: Option<P>, temp: P) -> (r: P)
    ensures
        r == (match named {
            Some(path) => path,
            None => temp,
        }),
{
    match named {
        Some(path) => path,
        None => temp,
    }
}

/// A folder: the names to join to a base folder, outermost first.
#[derive(Debug, PartialEq, Eq)]
pub struct Folder {
    pub base: BaseDir,
    pub names: Vec<String>,
}

/// The model of a folder.
#[verifier::ext_equal]
pub struct FolderView {
    pub base: BaseDir,
    pub names: Seq<Seq<char>>,
}

impl View for Folder {
    type V = FolderView;

    open spec fn view(&self) -> FolderView {
        FolderView { base: self.base, names: texts(self.names@) }
    }
}

/// A file: its folder and its name.
#[derive(Debug, PartialEq, Eq)]
pub struct Location {
    pub folder: Folder,
    pub name: String,
}

/// The model of a file.
#[verifier::ext_equal]
pub struct LocationView {
    pub folder: FolderView,
    pub name: Seq<char>,
}

impl View for Location {
    type V = LocationView;

    open spec fn view(&self) -> LocationView {
        LocationView { folder: self.folder@, name: self.name@ }
    }
}

/// The folder that holds all that the setup keeps.
pub open spec fn setup_folder() -> FolderView {
    FolderView { base: BaseDir::LocalAppData, names: seq!["PikminPilotSetup"@] }
}

/// The folder of this name in another.
pub open spec fn inside(folder: FolderView, name: Seq<char>) -> FolderView {
    FolderView { names: folder.names.push(name), ..folder }
}

/// The pairing helper, once extracted.
pub open spec fn helper_location() -> LocationView {
    LocationView {
        folder: inside(setup_folder(), "Tools"@),
        name: "PikminPilotPairingHelper.exe"@,
    }
}

/// The record of the device with this UDID.
pub open spec fn record_location(udid: Seq<char>) -> LocationView {
    LocationView {
        folder: inside(setup_folder(), "PairingBackup"@),
        name: "rp_pairing_file_"@ + udid + ".plist"@,
    }
}

/// The note that tells the user the UDID.
pub open spec fn note_location() -> LocationView {
    LocationView {
        folder: FolderView { base: BaseDir::UserProfile, names: seq!["Desktop"@] },
        name: "PikminPilot-UDID.txt"@,
    }
}

/// The folder that holds all that the setup keeps.
pub fn setup_root() -> (r: Folder)
    ensures
        r@ == setup_folder(),
{
    let mut names: Vec<String> = Vec::new();
    names.push("PikminPilotSetup".to_string());
    assert(texts(names@) =~= setup_folder().names);
    Folder { base: BaseDir::LocalAppData, names }
}

fn folder_in_root(name: &str) -> (r: Folder)
    ensures
        r@ == inside(setup_folder(), name@),
{
    let mut folder = setup_root();
    let ghost before = folder.names@;
    folder.names.push(name.to_string());
    assert(texts(folder.names@) =~= texts(before).push(name@));
    folder
}

/// Where the pairing helper is extracted to, if the one that the setup carries is
/// worth it.
pub fn prepare_pair_helper(size: usize) -> (r: Result<Location, String>)
    ensures
        r is Ok <==> size >= LEAST_HELPER_SIZE,
        r matches Ok(location) ==> location@ == helper_location(),
        r matches Err(text) ==> text@ == NO_HELPER@,
{
    if size < LEAST_HELPER_SIZE {
        return Err(NO_HELPER.to_string());
    }
    Ok(
        Location {
            folder: folder_in_root("Tools"),
            name: "PikminPilotPairingHelper.exe".to_string(),
        },
    )
}

/// Where the record of the device with this UDID is kept.
pub fn pairing_output_path(udid: &str) -> (r: Location)
    ensures
        r@ == record_location(udid@),
{
    Location {
        folder: folder_in_root("PairingBackup"),
        name: "rp_pairing_file_".to_string().concat(udid).concat(".plist"),
    }
}

/// What the note says.
pub open spec fn note_text(udid: Seq<char>) -> Seq<char> {
    "Pikmin Pilot device UDID\r\n\r\n"@ + udid
        + "\r\n\r\nIf install reports provisioning/profile failure, send this UDID to the Pikmin Pilot owner.\r\n"@
}

/// The note that tells the user the UDID: where it goes, and what it says.
#[derive(Debug, PartialEq, Eq)]
pub struct Note {
    pub location: Location,
    pub text: String,
}

/// The note that tells the user this UDID.
pub fn write_udid_note(udid: &str) -> (r: Note)
    ensures
        r.location@ == note_location(),
        r.text@ == note_text(udid@),
{
    let mut names: Vec<String> = Vec::new();
    names.push("Desktop".to_string());
    assert(texts(names@) =~= note_location().folder.names);
    let location = Location {
        folder: Folder { base: BaseDir::UserProfile, names },
        name: "PikminPilot-UDID.txt".to_string(),
    };
    let text = "Pikmin Pilot device UDID\r\n\r\n".to_string().concat(udid).concat(
        "\r\n\r\nIf install reports provisioning/profile failure, send this UDID to the Pikmin Pilot owner.\r\n",
    );
    Note { location, text }
}

/// The line that reports a note that was written to this path.
pub fn udid_note_line(path: &str) -> (r: Line)
    ensures
        r@ == on_stdout("      UDID copy: "@ + path@),
{
    stdout("      UDID copy: ".to_string().concat(path))
}

/// Whether the pairing helper has to be extracted: unless a file of just its size is
/// there. `there` is the size of that file, if it can be told.
pub fn pair_helper_needs_write(there: Option<u64>, size: usize) -> (r: bool)
    ensures
        r == (there != Some(size as u64)),
{
    match there {
        Some(found) => found != size as u64,
        None => true,
    }
}

/// Work on the computer's files that can fail.
#[derive(Clone, Copy, Debug, PartialEq, Eq, Structural)]
pub enum FileWork {
    CreateTools,
    ExtractHelper,
    CreateBackup,
    ReadRecord,
}

/// The message of work that failed for this reason.
pub open spec fn file_failure_text(work: FileWork, reason: Seq<char>) -> Seq<char> {
    (match work {
        FileWork::CreateTools => "create tools dir: "@,
        FileWork::ExtractHelper => "extract Pairing Helper: "@,
        FileWork::CreateBackup => "create pairing dir: "@,
        FileWork::ReadRecord => "read generated pairing: "@,
    }) + reason
}

/// The message of work that failed for this reason.
pub fn file_failure(work: FileWork, reason: &str) -> (r: String)
    ensures
        r@ == file_failure_text(work, reason@),
{
    let label = match work {
        FileWork::CreateTools => "create tools dir: ",
        FileWork::ExtractHelper => "extract Pairing Helper: ",
        FileWork::CreateBackup => "create pairing dir: ",
        FileWork::ReadRecord => "read generated pairing: ",
    };
    label.to_string().concat(reason)
}

/// Every device has a record of its own: different UDIDs, different files.
pub proof fn law_record_is_per_device(a: Seq<char>, b: Seq<char>)
    ensures
        record_location(a) == record_location(b) ==> a == b,
{
    if record_location(a) == record_location(b) {
        let head = "rp_pairing_file_"@;
        let tail = ".plist"@;
        let name = record_location(a).name;
        assert(name.subrange(head.len() as int, name.len() - tail.len()) =~= a);
        assert(record_location(b).name.subrange(
            head.len() as int,
            record_location(b).name.len() - tail.len(),
        ) =~= b);
    }
}

/// The helper, the records and the note never share a file.
pub proof fn law_files_are_apart(udid: Seq<char>)
    ensures
        helper_location() != record_location(udid),
        helper_location() != note_location(),
        record_location(udid) != note_location(),
{
    reveal_strlit("Tools");
    reveal_strlit("PairingBackup");
    assert("Tools"@.len() == 5);
    assert("PairingBackup"@.len() == 13);
    assert(helper_location().folder.names[1] == "Tools"@);
    assert(record_location(udid).folder.names[1] == "PairingBackup"@);
}

/// The record of a device stands in the backup folder of the setup's folder, under a name
/// that is the UDID between a fixed beginning and a fixed end.
pub proof fn law_record_is_named_after_its_device(udid: Seq<char>)
    ensures
        record_location(udid).folder.base == BaseDir::LocalAppData,
        record_location(udid).folder.names == seq!["PikminPilotSetup"@, "PairingBackup"@],
        record_location(udid).name == "rp_pairing_file_"@ + udid + ".plist"@,
{
    assert(record_location(udid).folder.names =~= seq!["PikminPilotSetup"@, "PairingBackup"@]);
}

/// The note tells the UDID, on a line of its own, whatever it is.
pub proof fn law_note_tells_the_udid(udid: Seq<char>)
    ensures
        exists|before: Seq<char>, behind: Seq<char>|
            #[trigger] (before + "\r\n"@ + udid + "\r\n"@ + behind) == note_text(udid),
{
    let head = "Pikmin Pilot device UDID\r\n\r\n"@;
    let tail = "\r\n\r\nIf install reports provisioning/profile failure, send this UDID to the Pikmin Pilot owner.\r\n"@;
    reveal_strlit("Pikmin Pilot device UDID\r\n\r\n");
    reveal_strlit("\r\n\r\nIf install reports provisioning/profile failure, send this UDID to the Pikmin Pilot owner.\r\n");
    reveal_strlit("\r\n");
    let before = head.take(head.len() - 2);
    let behind = tail.skip(2);
    assert(before + "\r\n"@ =~= head);
    assert("\r\n"@ + behind =~= tail);
    assert(before + "\r\n"@ + udid + "\r\n"@ + behind =~= note_text(udid));
}

/// Two notes differ in the UDID alone: what stands before it and behind it is the same.
pub proof fn law_notes_differ_in_the_udid_alone(a: Seq<char>, b: Seq<char>)
    ensures
        note_text(a).take(28) == note_text(b).take(28),
        note_text(a).skip(28 + a.len() as int) == note_text(b).skip(28 + b.len() as int),
        note_text(a).subrange(28, 28 + a.len() as int) == a,
{
    reveal_strlit("Pikmin Pilot device UDID\r\n\r\n");
    assert("Pikmin Pilot device UDID\r\n\r\n"@.len() == 28);
    assert(note_text(a).take(28) =~= note_text(b).take(28));
    assert(note_text(a).skip(28 + a.len() as int) =~= note_text(b).skip(28 + b.len() as int));
    assert(note_text(a).subrange(28, 28 + a.len() as int) =~= a);
}

/// The message of failed file work says what failed, and then the reason, unchanged.
pub proof fn law_file_failures_give_the_reason(reason: Seq<char>)
    ensures
        file_failure_text(FileWork::CreateTools, reason) == "create tools dir: "@ + reason,
        file_failure_text(FileWork::ExtractHelper, reason) == "extract Pairing Helper: "@ + reason,
        file_failure_text(FileWork::CreateBackup, reason) == "create pairing dir: "@ + reason,
        file_failure_text(FileWork::ReadRecord, reason) == "read generated pairing: "@ + reason,
{
}

} // verus!
