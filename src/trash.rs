//! Placing a file in the home trash: finding the trash directory from the
//! environment, recording where the file came from and when it was deleted,
//! then moving it in.
use vstd::prelude::*;
use crate::path::{file_name, file_name_of, join_path, join_spec};
use crate::timestamp::{Timestamp, rfc3339_micros_utc};

verus! {

/// Why an environment variable could not be read.
#[derive(Clone, Copy, Debug, PartialEq, Eq, Structural)]
pub enum VarError {
    /// The variable is not set.
    NotPresent,
    /// The variable is set, but its value is not valid Unicode.
    NotUnicode,
}

impl VarError {
    /// The text that describes this error.
    pub open spec fn message_spec(self) -> Seq<char> {
        match self {
            VarError::NotPresent => "environment variable not found"@,
            VarError::NotUnicode => "environment variable was not valid unicode"@,
        }
    }

    /// The text that describes this error.
    pub fn message(&self) -> (r: String)
        ensures
            r@ == self.message_spec(),
    {
        match self {
            VarError::NotPresent => String::from_str("environment variable not found"),
            VarError::NotUnicode => String::from_str("environment variable was not valid unicode"),
        }
    }
}

/// A failed file operation, with the text that describes it.
#[derive(Debug)]
pub struct IoError {
    pub message: String,
}

impl IoError {
    /// An error described by `message`.
    pub fn new(message: String) -> (r: IoError)
        ensures
            r.message == message,
    {
        IoError { message }
    }
}

/// Why a file could not be placed in the trash.
#[derive(Debug)]
pub enum PlacementError {
    /// The target path has no file name (it is empty, the root, or ends in `..`).
    InvalidTarget,
    /// Neither `XDG_DATA_HOME` nor `HOME` could be read; holds the error of
    /// the last read.
    EnvironmentUnresolved(VarError),
    /// The `.trashinfo` record could not be written; the target was not moved.
    MetadataWriteFailed(IoError),
    /// The record was written but the target could not be moved.
    MoveFailed(IoError),
}

impl PlacementError {
    /// The text that describes this error.
    pub open spec fn message_spec(self) -> Seq<char> {
        match self {
            PlacementError::InvalidTarget => "target has no file name"@,
            PlacementError::EnvironmentUnresolved(e) => e.message_spec(),
            PlacementError::MetadataWriteFailed(e) => e.message@,
            PlacementError::MoveFailed(e) => e.message@,
        }
    }

    /// The text that describes this error.
    pub fn message(&self) -> (r: String)
        ensures
            r@ == self.message_spec(),
    {
        match self {
            PlacementError::InvalidTarget => String::from_str("target has no file name"),
            PlacementError::EnvironmentUnresolved(e) => e.message(),
            PlacementError::MetadataWriteFailed(e) => e.message.clone(),
            PlacementError::MoveFailed(e) => e.message.clone(),
        }
    }
}

/// Reads environment variables. Each call reads the current state.
pub trait Environment {
    /// The value of the variable `name`, or why it could not be read.
    fn var(&self, name: &str) -> Result<String, VarError>;
}

/// The two file operations that placing a file needs. Both create the missing
/// parent directories of their destination first.
pub trait FileSystem {
    /// Moves the file at `source` to `destination`.
    fn rename(&self, source: &str, destination: &str) -> Result<(), IoError>;

    /// Creates, or overwrites, the file at `path` with exactly `contents`.
    fn create_text_file(&self, path: &str, contents: String) -> Result<(), IoError>;
}

/// The trash directory: `<XDG_DATA_HOME>/Trash` when `XDG_DATA_HOME` is set,
/// else `<HOME>/.local/share/Trash` when `HOME` is set, else none.
pub open spec fn trash_root_of(xdg_data_home: Option<Seq<char>>, home: Option<Seq<char>>) -> Option<
    Seq<char>,
> {
    match xdg_data_home {
        Some(x) => Some(join_spec(x, "Trash"@)),
        None => match home {
            Some(h) => Some(join_spec(join_spec(h, ".local/share"@), "Trash"@)),
            None => None,
        },
    }
}

/// Where the record of the file named `name` goes: `<root>/info/<name>.trashinfo`.
pub open spec fn info_path_of(root: Seq<char>, name: Seq<char>) -> Seq<char> {
    join_spec(join_spec(root, "info"@), name + ".trashinfo"@)
}

/// Where the file named `name` is moved: `<root>/files/<name>`.
pub open spec fn files_path_of(root: Seq<char>, name: Seq<char>) -> Seq<char> {
    join_spec(join_spec(root, "files"@), name)
}

/// The three lines of a `.trashinfo` record, without a final newline.
pub open spec fn trash_info_of(target: Seq<char>, deletion_date: Seq<char>) -> Seq<char> {
    "[Trash Info]\nPath="@ + target + "\nDeletionDate="@ + deletion_date
}

/// What placing a file writes and moves.
pub struct Placement {
    /// The path of the `.trashinfo` record.
    pub info_path: String,
    /// The text of the record.
    pub info_contents: String,
    /// Where the target is moved.
    pub files_path: String,
}

/// `p` places `target` under the trash directory `root`, deleted at the date
/// written `deletion_date`.
pub open spec fn places(p: Placement, target: Seq<char>, root: Seq<char>, deletion_date: Seq<char>) -> bool {
    match file_name_of(target) {
        Some(name) => {
            &&& p.info_path@ == info_path_of(root, name)
            &&& p.files_path@ == files_path_of(root, name)
            &&& p.info_contents@ == trash_info_of(target, deletion_date)
        },
        None => false,
    }
}

/// The trash directory under the data directory `data_home`.
pub fn trash_dir(data_home: &str) -> (r: String)
    ensures
        r@ == join_spec(data_home@, "Trash"@),
{
    join_path(data_home, "Trash")
}

/// The data directory that stands in for `XDG_DATA_HOME` under the home
/// directory `home`: `<home>/.local/share`.
pub fn default_data_home(home: &str) -> (r: String)
    ensures
        r@ == join_spec(home@, ".local/share"@),
{
    join_path(home, ".local/share")
}

/// The name of the variable that gives the data directory.
pub fn data_home_var() -> (r: &'static str)
    ensures
        r@ == "XDG_DATA_HOME"@,
{
    "XDG_DATA_HOME"
}

/// The name of the variable that gives the home directory.
pub fn home_var() -> (r: &'static str)
    ensures
        r@ == "HOME"@,
{
    "HOME"
}

/// The data directory, given what reading `HOME` gave: `<HOME>/.local/share`,
/// or the error of the read, unchanged.
pub fn data_home_from(home: Result<String, VarError>) -> (r: Result<String, VarError>)
    ensures
        home matches Ok(h) ==> r matches Ok(p) && p@ == join_spec(h@, ".local/share"@),
        home matches Err(e) ==> r == Err::<String, VarError>(e),
{
    match home {
        Ok(h) => Ok(default_data_home(h.as_str())),
        Err(e) => Err(e),
    }
}

/// The trash directory, given what reading `XDG_DATA_HOME` gave and, when
/// that failed, what reading `HOME` gave (`None` when `HOME` was not read).
/// With neither value, the error of the last read is passed on.
pub fn trash_path_from(data_home: Result<String, VarError>, home: Option<Result<String, VarError>>) -> (r: Result<String, VarError>)
    ensures
        match data_home {
            Ok(x) => r matches Ok(p) && p@ == join_spec(x@, "Trash"@),
            Err(e) => match home {
                None => r == Err::<String, VarError>(e),
                Some(Ok(h)) => r matches Ok(p) && p@ == join_spec(
                    join_spec(h@, ".local/share"@),
                    "Trash"@,
                ),
                Some(Err(f)) => r == Err::<String, VarError>(f),
            },
        },
{
    match data_home {
        Ok(x) => Ok(trash_dir(x.as_str())),
        Err(e) => match home {
            None => Err(e),
            Some(home) => match data_home_from(home) {
                Ok(d) => Ok(trash_dir(d.as_str())),
                Err(e) => Err(e),
            },
        },
    }
}

/// The path of the record of the file named `name` under the trash directory `root`.
pub fn info_file_path(root: &str, name: &str) -> (r: String)
    ensures
        r@ == info_path_of(root@, name@),
{
    let dir = join_path(root, "info");
    let file = String::from_str(name).concat(".trashinfo");
    join_path(dir.as_str(), file.as_str())
}

/// Where the file named `name` is moved under the trash directory `root`.
pub fn files_path(root: &str, name: &str) -> (r: String)
    ensures
        r@ == files_path_of(root@, name@),
{
    let dir = join_path(root, "files");
    join_path(dir.as_str(), name)
}

/// The `.trashinfo` record of `target`, deleted at the date written
/// `deletion_date`.
pub fn trash_info(target: &str, deletion_date: &str) -> (r: String)
    ensures
        r@ == trash_info_of(target@, deletion_date@),
{
    String::from_str("[Trash Info]\nPath=").concat(target).concat("\nDeletionDate=").concat(
        deletion_date,
    )
}

/// What placing `target` under the trash directory `root` writes and moves,
/// with the deletion date written `deletion_date`; `None` when `target` has
/// no file name.
pub fn plan_placement(target: &str, root: &str, deletion_date: &str) -> (r: Option<Placement>)
    ensures
        r matches Some(p) ==> places(p, target@, root@, deletion_date@),
        r is None <==> file_name_of(target@) is None,
{
    match file_name(target) {
        None => None,
        Some(name) => Some(
            Placement {
                info_path: info_file_path(root, name.as_str()),
                info_contents: trash_info(target, deletion_date),
                files_path: files_path(root, name.as_str()),
            },
        ),
    }
}

/// How far the placement of one file has come: the answer to the last
/// request, with what must be kept for the next.
pub enum Progress {
    /// Nothing asked yet.
    Start,
    /// The answer to reading `XDG_DATA_HOME`.
    DataHomeRead(Result<String, VarError>),
    /// The answer to reading `HOME`, asked once `XDG_DATA_HOME` could not be read.
    HomeRead(Result<String, VarError>),
    /// The answer to writing the record, and where the target goes next.
    RecordWritten(Result<(), IoError>, String),
    /// The answer to moving the target.
    Moved(Result<(), IoError>),
}

impl Progress {
    /// How many requests may still follow, at most.
    pub open spec fn rank(&self) -> nat {
        match self {
            Progress::Start => 4,
            Progress::DataHomeRead(_) => 3,
            Progress::HomeRead(_) => 2,
            Progress::RecordWritten(_, _) => 1,
            Progress::Moved(_) => 0,
        }
    }
}

/// What the placement of one file asks of its collaborators next.
pub enum Request {
    /// Read the variable named here, `XDG_DATA_HOME`.
    ReadDataHome(String),
    /// Read the variable named here, `HOME`.
    ReadHome(String),
    /// Write the record `contents` at `path`; the target goes to the
    /// destination after.
    WriteRecord(String, String, String),
    /// Move the file at the source to the destination.
    Move(String, String),
    /// Stop, with this result.
    Finish(Result<(), PlacementError>),
}

impl Request {
    /// The rank of the progress that the answer to this request makes.
    pub open spec fn rank(&self) -> int {
        match self {
            Request::ReadDataHome(_) => 3,
            Request::ReadHome(_) => 2,
            Request::WriteRecord(_, _, _) => 1,
            Request::Move(_, _) => 0,
            Request::Finish(_) => -1,
        }
    }
}

/// `r` asks to write the record of `target` under the trash directory `root`
/// and names the destination of the move that follows, or, when `target` has
/// no file name, stops with `InvalidTarget`.
pub open spec fn writes_under(r: Request, target: Seq<char>, root: Seq<char>, deletion_date: Seq<char>) -> bool {
    match file_name_of(target) {
        Some(name) => match r {
            Request::WriteRecord(path, contents, destination) => {
                &&& path@ == info_path_of(root, name)
                &&& contents@ == trash_info_of(target, deletion_date)
                &&& destination@ == files_path_of(root, name)
            },
            _ => false,
        },
        None => r == Request::Finish(Err(PlacementError::InvalidTarget)),
    }
}

/// What placing `target`, deleted at the date written `deletion_date`, asks
/// for after `progress`.
pub open spec fn answers(target: Seq<char>, deletion_date: Seq<char>, progress: Progress, r: Request) -> bool {
    match progress {
        Progress::Start => if file_name_of(target) is None {
            r == Request::Finish(Err(PlacementError::InvalidTarget))
        } else {
            r matches Request::ReadDataHome(n) && n@ == "XDG_DATA_HOME"@
        },
        Progress::DataHomeRead(Ok(x)) => writes_under(r, target, join_spec(x@, "Trash"@), deletion_date),
        Progress::DataHomeRead(Err(_)) => r matches Request::ReadHome(n) && n@ == "HOME"@,
        Progress::HomeRead(Ok(h)) => writes_under(
            r,
            target,
            join_spec(join_spec(h@, ".local/share"@), "Trash"@),
            deletion_date,
        ),
        Progress::HomeRead(Err(e)) => r == Request::Finish(Err(PlacementError::EnvironmentUnresolved(e))),
        Progress::RecordWritten(Ok(()), destination) => match r {
            Request::Move(source, to) => source@ == target && to@ == destination@,
            _ => false,
        },
        Progress::RecordWritten(Err(e), _) => r == Request::Finish(Err(PlacementError::MetadataWriteFailed(e))),
        Progress::Moved(Ok(())) => r == Request::Finish(Ok(())),
        Progress::Moved(Err(e)) => r == Request::Finish(Err(PlacementError::MoveFailed(e))),
    }
}

/// The write request of the placement of `target` under `root`.
fn write_request(target: &str, root: &str, deletion_date: &str) -> (r: Request)
    ensures
        writes_under(r, target@, root@, deletion_date@),
{
    match plan_placement(target, root, deletion_date) {
        Some(p) => Request::WriteRecord(p.info_path, p.info_contents, p.files_path),
        None => Request::Finish(Err(PlacementError::InvalidTarget)),
    }
}

/// The next request of the placement of `target`, deleted at the date
/// written `deletion_date`, given how far it has come: `XDG_DATA_HOME` is
/// read first, `HOME` only when that fails; the record is written before the
/// target is moved, and the move is asked only once the record is written.
pub fn next_request(target: &str, deletion_date: &str, progress: Progress) -> (r: Request)
    ensures
        answers(target@, deletion_date@, progress, r),
        r.rank() < progress.rank(),
{
    match progress {
        Progress::Start => {
            if file_name(target).is_none() {
                Request::Finish(Err(PlacementError::InvalidTarget))
            } else {
                Request::ReadDataHome(String::from_str(data_home_var()))
            }
        },
        Progress::DataHomeRead(Ok(x)) => {
            let root = trash_dir(x.as_str());
            write_request(target, root.as_str(), deletion_date)
        },
        Progress::DataHomeRead(Err(_)) => Request::ReadHome(String::from_str(home_var())),
        Progress::HomeRead(Ok(h)) => {
            let data_home = default_data_home(h.as_str());
            let root = trash_dir(data_home.as_str());
            write_request(target, root.as_str(), deletion_date)
        },
        Progress::HomeRead(Err(e)) => Request::Finish(Err(PlacementError::EnvironmentUnresolved(e))),
        Progress::RecordWritten(Ok(()), destination) => Request::Move(String::from_str(target), destination),
        Progress::RecordWritten(Err(e), _) => Request::Finish(Err(PlacementError::MetadataWriteFailed(e))),
        Progress::Moved(Ok(())) => Request::Finish(Ok(())),
        Progress::Moved(Err(e)) => Request::Finish(Err(PlacementError::MoveFailed(e))),
    }
}

/// A placement succeeds exactly when its record was written and its target
/// moved: success is asked only right after a successful move, a move only
/// right after a successful record write, and a failed write or move stops
/// the placement with that failure.
pub proof fn lemma_success_needs_write_and_move(
    target: Seq<char>,
    deletion_date: Seq<char>,
    progress: Progress,
    r: Request,
)
    requires
        answers(target, deletion_date, progress, r),
    ensures
        r == Request::Finish(Ok(())) <==> progress == Progress::Moved(Ok(())),
        r is Move ==> progress matches Progress::RecordWritten(Ok(()), _),
        progress matches Progress::RecordWritten(Err(e), _) ==> r == Request::Finish(
            Err(PlacementError::MetadataWriteFailed(e)),
        ),
        progress matches Progress::Moved(Err(e)) ==> r == Request::Finish(
            Err(PlacementError::MoveFailed(e)),
        ),
{
    match progress {
        Progress::DataHomeRead(Ok(x)) => {
            assert(r != Request::Finish(Ok(())));
        },
        Progress::HomeRead(Ok(h)) => {
            assert(r != Request::Finish(Ok(())));
        },
        Progress::Moved(Ok(u)) => {
            assert(progress == Progress::Moved(Ok(())));
        },
        _ => {
            assert(r != Request::Finish(Ok(())));
        },
    }
}

/// When neither `XDG_DATA_HOME` nor `HOME` can be read, the placement of a
/// target with a file name asks for the two variables and then stops with
/// `EnvironmentUnresolved`: it never asks to write or move a file.
pub proof fn lemma_unresolved_environment_touches_no_file(
    target: Seq<char>,
    deletion_date: Seq<char>,
    data_home_error: VarError,
    home_error: VarError,
    first: Request,
    second: Request,
    third: Request,
)
    requires
        file_name_of(target) is Some,
        answers(target, deletion_date, Progress::Start, first),
        answers(target, deletion_date, Progress::DataHomeRead(Err(data_home_error)), second),
        answers(target, deletion_date, Progress::HomeRead(Err(home_error)), third),
    ensures
        first matches Request::ReadDataHome(n) && n@ == "XDG_DATA_HOME"@,
        second matches Request::ReadHome(n) && n@ == "HOME"@,
        third == Request::Finish(Err(PlacementError::EnvironmentUnresolved(home_error))),
{
}

/// A record is only asked to be written once a trash directory was found:
/// right after `XDG_DATA_HOME`, or `HOME`, was read.
pub proof fn lemma_writes_need_a_trash_directory(
    target: Seq<char>,
    deletion_date: Seq<char>,
    progress: Progress,
    r: Request,
)
    requires
        answers(target, deletion_date, progress, r),
    ensures
        r is WriteRecord ==> progress matches Progress::DataHomeRead(Ok(_))
            || progress matches Progress::HomeRead(Ok(_)),
{
}

/// Two targets with the same file name, placed under one trash directory,
/// get the same record path and the same destination, whatever their
/// deletion dates: the second placement overwrites the record and the file
/// of the first, and its record describes the second target.
pub proof fn lemma_same_name_same_destination(
    first: Request,
    second: Request,
    first_target: Seq<char>,
    second_target: Seq<char>,
    root: Seq<char>,
    first_date: Seq<char>,
    second_date: Seq<char>,
)
    requires
        file_name_of(first_target) is Some,
        file_name_of(first_target) == file_name_of(second_target),
        writes_under(first, first_target, root, first_date),
        writes_under(second, second_target, root, second_date),
    ensures
        first matches Request::WriteRecord(first_path, _, first_destination)
            && second matches Request::WriteRecord(second_path, second_contents, second_destination)
            && first_path@ == second_path@
            && first_destination@ == second_destination@
            && second_contents@ == trash_info_of(second_target, second_date),
{
}

/// Places files in the home trash, reading the environment and changing files
/// through the collaborators it was built with.
pub struct Trash<'a, E, F> {
    environment: &'a E,
    filesystem: &'a F,
}

impl<'a, E: Environment, F: FileSystem> Trash<'a, E, F> {
    /// The environment this trash reads.
    pub closed spec fn environment(self) -> E {
        *self.environment
    }

    /// The file system this trash changes files through.
    pub closed spec fn filesystem(self) -> F {
        *self.filesystem
    }

    /// A trash that reads `environment` and changes files through `filesystem`.
    pub fn new(environment: &'a E, filesystem: &'a F) -> (r: Trash<'a, E, F>)
        ensures
            r.environment() == *environment,
            r.filesystem() == *filesystem,
    {
        Trash { environment, filesystem }
    }

    /// Moves `target` into the trash, deleted at `time`, carrying out the
    /// requests of `next_request` one after the other.
    ///
    /// Fails with `InvalidTarget`, before any other work, when `target` has no
    /// file name. Otherwise it finds the trash directory (`EnvironmentUnresolved`
    /// when neither variable can be read, and then nothing is written), writes
    /// the `.trashinfo` record (`MetadataWriteFailed`, and then nothing is
    /// moved), and moves the target (`MoveFailed`; the record stays).
    pub fn put(&self, target: &str, time: Timestamp) -> (r: Result<(), PlacementError>)
        ensures
            r matches Err(PlacementError::InvalidTarget) <==> file_name_of(target@) is None,
    {
        let date = time.deletion_date();
        let mut progress = Progress::Start;
        loop
            invariant
                !(progress is Start) ==> file_name_of(target@) is Some,
            decreases progress.rank(),
        {
            progress = match next_request(target, date.as_str(), progress) {
                Request::ReadDataHome(name) => Progress::DataHomeRead(
                    self.environment.var(name.as_str()),
                ),
                Request::ReadHome(name) => Progress::HomeRead(self.environment.var(name.as_str())),
                Request::WriteRecord(path, contents, destination) => Progress::RecordWritten(
                    self.filesystem.create_text_file(path.as_str(), contents),
                    destination,
                ),
                Request::Move(source, destination) => Progress::Moved(
                    self.filesystem.rename(source.as_str(), destination.as_str()),
                ),
                Request::Finish(result) => {
                    return result;
                },
            };
        }
    }

    /// The trash directory: `<XDG_DATA_HOME>/Trash`, or, when that variable
    /// cannot be read, `<HOME>/.local/share/Trash`. `HOME` is read only when
    /// `XDG_DATA_HOME` cannot be; when neither can, the error of reading
    /// `HOME` is passed on. What comes back for each answer is the contract
    /// of `trash_path_from`; the names read come from `data_home_var` and
    /// `home_var`.
    pub fn get_trash_path(&self) -> (r: Result<String, VarError>)
        ensures
            r matches Ok(p) ==> exists|x: Option<Seq<char>>, h: Option<Seq<char>>|
                #[trigger] trash_root_of(x, h) == Some(p@),
    {
        let data_home = self.environment.var(data_home_var());
        let home = if data_home.is_err() {
            Some(self.environment.var(home_var()))
        } else {
            None
        };
        let ghost read_data_home = data_home;
        let ghost read_home = home;
        let r = trash_path_from(data_home, home);
        proof {
            match read_data_home {
                Ok(x) => {
                    assert(trash_root_of(Some(x@), None) == Some(join_spec(x@, "Trash"@)));
                },
                Err(_) => match read_home {
                    Some(Ok(h)) => {
                        assert(trash_root_of(None, Some(h@)) == Some(
                            join_spec(join_spec(h@, ".local/share"@), "Trash"@),
                        ));
                    },
                    _ => {},
                },
            }
        }
        r
    }

    /// The data directory under `HOME`, `<HOME>/.local/share`, or the error
    /// of reading `HOME`, as `data_home_from` gives it for the value read
    /// under the name `home_var`.
    pub fn get_default_xdg_data_home(&self) -> (r: Result<String, VarError>)
        ensures
            r matches Ok(p) ==> exists|h: Seq<char>| #[trigger] join_spec(h, ".local/share"@) == p@,
    {
        data_home_from(self.environment.var(home_var()))
    }
}

} // verus!
