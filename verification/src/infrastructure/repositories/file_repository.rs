//! Keeping one user record in a flat file.
//!
//! The file holds a single line, `last_name;first_name;email`, followed by
//! `;` and the address where the user has one. Every record replaces what the
//! file held before. A field that holds `;` is written as it is.
//!
//! Nothing here touches the disk. Adding a user is a short exchange with the
//! caller: the repository names a [`FileCommand`], the caller carries it out
//! and tells how it went, and the repository either names the next command or
//! ends with the record or with the failure. The commands come in a fixed
//! order, and the first one that fails ends the exchange.
//!
//! `begin` starts an exchange at `first_step`, with the directory that
//! `parent_of` gives for the path, and `resume` goes on as `next_step` says.
//! What holds of whole exchanges is stated of `run` and `commands`, which
//! follow those two through any outcomes, and proved at the end of this file
//! for every path and every directory.

use vstd::prelude::*;
use crate::domain::entities::user_entity::{Address, UserEntity, UserEntityView};
use crate::domain::errors::add_user_error::AddUserError;

verus! {

/// The line that stands for a user in the file.
pub open spec fn record_line(user: UserEntityView) -> Seq<char> {
    let fields = user.last_name + seq![';'] + user.first_name + seq![';'] + user.email;
    match user.address {
        Some(address) => fields + seq![';'] + address,
        None => fields,
    }
}

/// The message of a failure to create the directories above the file.
pub open spec fn directories_failure(directory: Seq<char>, cause: Seq<char>) -> Seq<char> {
    "An error occured while creating directories "@ + directory + " : "@ + cause
}

/// The message of a failure to create the file.
pub open spec fn file_failure(file_path: Seq<char>, cause: Seq<char>) -> Seq<char> {
    "An error occured while creating file "@ + file_path + " : "@ + cause
}

/// The message of a failure to write the line into the file.
pub open spec fn content_failure(content: Seq<char>, file_path: Seq<char>, cause: Seq<char>) -> Seq<
    char,
> {
    "An error occured while puting content '"@ + content + "' in file "@ + file_path + " : "@
        + cause
}

/// One thing for the caller to do on disk.
pub enum FileCommand {
    /// Create this directory and every missing directory above it.
    CreateDirectories { directory: String },
    /// Create the file at this path, or empty it if it exists.
    CreateFile { path: String },
    /// Write all of this text into the file that was just created.
    WriteAll { content: String },
}

pub enum FileCommandView {
    CreateDirectories { directory: Seq<char> },
    CreateFile { path: Seq<char> },
    WriteAll { content: Seq<char> },
}

impl View for FileCommand {
    type V = FileCommandView;

    open spec fn view(&self) -> FileCommandView {
        match self {
            FileCommand::CreateDirectories { directory } => FileCommandView::CreateDirectories {
                directory: directory@,
            },
            FileCommand::CreateFile { path } => FileCommandView::CreateFile { path: path@ },
            FileCommand::WriteAll { content } => FileCommandView::WriteAll { content: content@ },
        }
    }
}

/// The command whose outcome is awaited.
pub enum Stage {
    Directories { directory: String },
    File,
    Content,
}

pub enum StageView {
    Directories { directory: Seq<char> },
    File,
    Content,
}

impl View for Stage {
    type V = StageView;

    open spec fn view(&self) -> StageView {
        match self {
            Stage::Directories { directory } => StageView::Directories { directory: directory@ },
            Stage::File => StageView::File,
            Stage::Content => StageView::Content,
        }
    }
}

/// An exchange that waits for the outcome of its last command.
pub struct PendingAddUser {
    stage: Stage,
    file_path: String,
    content: String,
    user: UserEntity,
}

pub struct PendingAddUserView {
    pub stage: StageView,
    pub file_path: Seq<char>,
    pub user: UserEntityView,
}

impl View for PendingAddUser {
    type V = PendingAddUserView;

    closed spec fn view(&self) -> PendingAddUserView {
        PendingAddUserView { stage: self.stage@, file_path: self.file_path@, user: self.user@ }
    }
}

/// Where an exchange stands: at a command for the caller, or at its end.
pub enum Step {
    /// Carry out `command`, then hand its outcome to `pending.resume`.
    Perform { command: FileCommand, pending: PendingAddUser },
    /// The user was recorded, or could not be.
    Finished { result: Result<UserEntity, AddUserError> },
}

pub enum StepView {
    Perform { command: FileCommandView, pending: PendingAddUserView },
    Finished { result: Result<UserEntityView, Seq<char>> },
}

impl View for Step {
    type V = StepView;

    open spec fn view(&self) -> StepView {
        match self {
            Step::Perform { command, pending } => StepView::Perform {
                command: command@,
                pending: pending@,
            },
            Step::Finished { result } => StepView::Finished {
                result: match result {
                    Ok(user) => Ok(user@),
                    Err(error) => Err(error@),
                },
            },
        }
    }
}

/// How a command went, with the cause of a failure as text.
pub open spec fn outcome_view(outcome: Result<(), String>) -> Result<(), Seq<char>> {
    match outcome {
        Ok(_) => Ok(()),
        Err(cause) => Err(cause@),
    }
}

/// The text of a directory that may be absent.
pub open spec fn directory_view(directory: Option<String>) -> Option<Seq<char>> {
    match directory {
        Some(d) => Some(d@),
        None => None,
    }
}

/// The first step of an exchange: the directories above the file where the
/// path has any, else the file itself.
pub open spec fn first_step(
    file_path: Seq<char>,
    directory: Option<Seq<char>>,
    user: UserEntityView,
) -> StepView {
    match directory {
        Some(d) => StepView::Perform {
            command: FileCommandView::CreateDirectories { directory: d },
            pending: PendingAddUserView {
                stage: StageView::Directories { directory: d },
                file_path,
                user,
            },
        },
        None => StepView::Perform {
            command: FileCommandView::CreateFile { path: file_path },
            pending: PendingAddUserView { stage: StageView::File, file_path, user },
        },
    }
}

/// The step that follows the outcome of the awaited command. A failure ends
/// the exchange with its message. A success leads from the directories to the
/// file, from the file to its content, and from the content to the record.
pub open spec fn next_step(pending: PendingAddUserView, outcome: Result<(), Seq<char>>) -> StepView {
    match (pending.stage, outcome) {
        (StageView::Directories { directory }, Err(cause)) => StepView::Finished {
            result: Err(directories_failure(directory, cause)),
        },
        (StageView::Directories { .. }, Ok(_)) => StepView::Perform {
            command: FileCommandView::CreateFile { path: pending.file_path },
            pending: PendingAddUserView {
                stage: StageView::File,
                file_path: pending.file_path,
                user: pending.user,
            },
        },
        (StageView::File, Err(cause)) => StepView::Finished {
            result: Err(file_failure(pending.file_path, cause)),
        },
        (StageView::File, Ok(_)) => StepView::Perform {
            command: FileCommandView::WriteAll { content: record_line(pending.user) },
            pending: PendingAddUserView {
                stage: StageView::Content,
                file_path: pending.file_path,
                user: pending.user,
            },
        },
        (StageView::Content, Err(cause)) => StepView::Finished {
            result: Err(content_failure(record_line(pending.user), pending.file_path, cause)),
        },
        (StageView::Content, Ok(_)) => StepView::Finished { result: Ok(pending.user) },
    }
}

impl PendingAddUser {
    #[verifier::type_invariant]
    spec fn holds_its_line(&self) -> bool {
        self.content@ == record_line(self.user@)
    }

    /// Takes the outcome of the awaited command, `Err` with the cause where
    /// it failed, and gives the step that follows.
    pub fn resume(self, outcome: Result<(), String>) -> (step: Step)
        ensures
            step@ == next_step(self@, outcome_view(outcome)),
    {
        proof {
            use_type_invariant(&self);
        }
        let PendingAddUser { stage, file_path, content, user } = self;
        match stage {
            Stage::Directories { directory } => match outcome {
                Err(cause) => {
                    let mut message = String::from_str(
                        "An error occured while creating directories ",
                    );
                    message.append(directory.as_str());
                    message.append(" : ");
                    message.append(cause.as_str());
                    Step::Finished { result: Err(AddUserError::new(message)) }
                },
                Ok(_) => Step::Perform {
                    command: FileCommand::CreateFile { path: file_path.clone() },
                    pending: PendingAddUser { stage: Stage::File, file_path, content, user },
                },
            },
            Stage::File => match outcome {
                Err(cause) => {
                    let mut message = String::from_str("An error occured while creating file ");
                    message.append(file_path.as_str());
                    message.append(" : ");
                    message.append(cause.as_str());
                    Step::Finished { result: Err(AddUserError::new(message)) }
                },
                Ok(_) => Step::Perform {
                    command: FileCommand::WriteAll { content: content.clone() },
                    pending: PendingAddUser { stage: Stage::Content, file_path, content, user },
                },
            },
            Stage::Content => match outcome {
                Err(cause) => {
                    let mut message = String::from_str("An error occured while puting content '");
                    message.append(content.as_str());
                    message.append("' in file ");
                    message.append(file_path.as_str());
                    message.append(" : ");
                    message.append(cause.as_str());
                    Step::Finished { result: Err(AddUserError::new(message)) }
                },
                Ok(_) => Step::Finished { result: Ok(user) },
            },
        }
    }
}

/// The storage of user records in the file at one path.
pub struct FileRepository {
    file_path: String,
}

impl View for FileRepository {
    type V = Seq<char>;

    closed spec fn view(&self) -> Seq<char> {
        self.file_path@
    }
}

/// The directory above a path, as `std::path::Path::parent` gives it: the
/// path without its last component, or nothing where the path ends in a root
/// or is empty. It is read off the text of the path alone, never off the disk,
/// by the rules for paths of the platform that the library is built for.
pub uninterp spec fn parent_of(file_path: Seq<char>) -> Option<Seq<char>>;

/// Calls `std::path::Path::parent` on the path and gives the directory back as
/// text. All that is claimed is that the result is `parent_of` of the path:
/// the same text gives the same directory.
#[verifier::external_body]
fn parent_directory(file_path: &String) -> (directory: Option<String>)
    ensures
        directory_view(directory) == parent_of(file_path@),
{
    match std::path::Path::new(file_path.as_str()).parent() {
        Some(directory) => Some(directory.display().to_string()),
        None => None,
    }
}

impl FileRepository {
    pub fn new(file_path: String) -> (repository: Self)
        ensures
            repository@ == file_path@,
    {
        Self { file_path }
    }

    pub fn get_file_path(&self) -> (file_path: &String)
        ensures
            file_path@ == self@,
    {
        &self.file_path
    }

    /// The line that stands for these fields in the file.
    pub fn content(
        last_name: &String,
        first_name: &String,
        email: &String,
        address: &Option<Box<dyn Address>>,
    ) -> (content: String)
        ensures
            content@ == record_line(
                UserEntityView {
                    last_name: last_name@,
                    first_name: first_name@,
                    email: email@,
                    address: crate::domain::entities::user_entity::address_display(*address),
                },
            ),
    {
        proof {
            reveal_strlit(";");
        }
        let mut content = last_name.clone();
        content.append(";");
        content.append(first_name.as_str());
        content.append(";");
        content.append(email.as_str());
        match address {
            Some(a) => {
                let text = a.to_string();
                content.append(";");
                content.append(text.as_str());
            },
            None => {},
        }
        content
    }

    /// Starts the exchange that records a user, with the directory above the
    /// file given by the caller.
    pub fn begin_in(
        &self,
        directory: Option<String>,
        last_name: &String,
        first_name: &String,
        email: &String,
        address: Option<Box<dyn Address>>,
    ) -> (step: Step)
        ensures
            step@ == first_step(
                self@,
                directory_view(directory),
                UserEntityView {
                    last_name: last_name@,
                    first_name: first_name@,
                    email: email@,
                    address: crate::domain::entities::user_entity::address_display(address),
                },
            ),
    {
        let content = Self::content(last_name, first_name, email, &address);
        let user = UserEntity::new(last_name.clone(), first_name.clone(), email.clone(), address);
        let file_path = self.file_path.clone();
        match directory {
            Some(d) => Step::Perform {
                command: FileCommand::CreateDirectories { directory: d.clone() },
                pending: PendingAddUser {
                    stage: Stage::Directories { directory: d },
                    file_path,
                    content,
                    user,
                },
            },
            None => Step::Perform {
                command: FileCommand::CreateFile { path: file_path.clone() },
                pending: PendingAddUser { stage: Stage::File, file_path, content, user },
            },
        }
    }

    /// Starts the exchange that records a user: the one that `begin_in`
    /// starts with the directory above the file, as the path gives it.
    pub fn begin(
        &self,
        last_name: &String,
        first_name: &String,
        email: &String,
        address: Option<Box<dyn Address>>,
    ) -> (step: Step)
        ensures
            step@ == first_step(
                self@,
                parent_of(self@),
                UserEntityView {
                    last_name: last_name@,
                    first_name: first_name@,
                    email: email@,
                    address: crate::domain::entities::user_entity::address_display(address),
                },
            ),
    {
        let directory = parent_directory(&self.file_path);
        self.begin_in(directory, last_name, first_name, email, address)
    }
}

/// Where an exchange stands once the caller has met its commands with these
/// outcomes, one after another. Outcomes that come after its end count for
/// nothing.
pub open spec fn run(step: StepView, outcomes: Seq<Result<(), Seq<char>>>) -> StepView
    decreases outcomes.len(),
{
    match step {
        StepView::Perform { pending, .. } => if outcomes.len() > 0 {
            run(next_step(pending, outcomes[0]), outcomes.drop_first())
        } else {
            step
        },
        StepView::Finished { .. } => step,
    }
}

/// The commands that the caller is given on the way, the one that waits for
/// its outcome included.
pub open spec fn commands(step: StepView, outcomes: Seq<Result<(), Seq<char>>>) -> Seq<
    FileCommandView,
>
    decreases outcomes.len(),
{
    match step {
        StepView::Perform { command, pending } => if outcomes.len() > 0 {
            seq![command] + commands(next_step(pending, outcomes[0]), outcomes.drop_first())
        } else {
            seq![command]
        },
        StepView::Finished { .. } => Seq::empty(),
    }
}

/// The number of commands in an exchange that succeeds.
pub open spec fn commands_needed(directory: Option<Seq<char>>) -> nat {
    if directory is Some {
        3
    } else {
        2
    }
}

/// The outcomes that `run` and `commands` meet second and third are the
/// second and the third of all.
proof fn lemma_outcomes_in_order(outcomes: Seq<Result<(), Seq<char>>>)
    ensures
        outcomes.len() > 1 ==> outcomes.drop_first()[0] == outcomes[1],
        outcomes.len() > 2 ==> outcomes.drop_first().drop_first()[0] == outcomes[2],
{
}

/// An exchange ends with the record exactly when each of its commands
/// succeeded, and the record then holds the fields that it was started with,
/// unchanged.
pub proof fn lemma_success_returns_the_inputs(
    file_path: Seq<char>,
    directory: Option<Seq<char>>,
    user: UserEntityView,
    outcomes: Seq<Result<(), Seq<char>>>,
)
    ensures
        run(first_step(file_path, directory, user), outcomes) matches StepView::Finished {
            result: Ok(recorded),
        } ==> recorded == user,
        run(first_step(file_path, directory, user), outcomes) matches StepView::Finished {
            result: Ok(_),
        } <==> outcomes.len() >= commands_needed(directory) && forall|i: int|
            0 <= i < commands_needed(directory) ==> (#[trigger] outcomes[i]) is Ok,
{
    reveal_with_fuel(run, 4);
    lemma_outcomes_in_order(outcomes);
}

/// Where the directories above the file cannot be created, the exchange ends
/// at once with that failure: the only command given was the one to create
/// them, so no file was created or written.
pub proof fn lemma_directories_failure_leaves_the_file(
    file_path: Seq<char>,
    directory: Seq<char>,
    user: UserEntityView,
    outcomes: Seq<Result<(), Seq<char>>>,
)
    requires
        outcomes.len() > 0,
        outcomes[0] is Err,
    ensures
        run(first_step(file_path, Some(directory), user), outcomes) == (StepView::Finished {
            result: Err(directories_failure(directory, outcomes[0]->Err_0)),
        }),
        commands(first_step(file_path, Some(directory), user), outcomes)
            == seq![FileCommandView::CreateDirectories { directory }],
{
    reveal_with_fuel(run, 2);
    reveal_with_fuel(commands, 2);
    assert(commands(first_step(file_path, Some(directory), user), outcomes)
        =~= seq![FileCommandView::CreateDirectories { directory }]);
}

/// Where the file was created and writing into it fails, the exchange ends
/// with that failure, never with a record.
pub proof fn lemma_write_failure_is_an_error(
    file_path: Seq<char>,
    directory: Option<Seq<char>>,
    user: UserEntityView,
    outcomes: Seq<Result<(), Seq<char>>>,
)
    requires
        outcomes.len() >= commands_needed(directory),
        forall|i: int| 0 <= i < commands_needed(directory) - 1 ==> (#[trigger] outcomes[i]) is Ok,
        outcomes[commands_needed(directory) - 1] is Err,
    ensures
        run(first_step(file_path, directory, user), outcomes) == (StepView::Finished {
            result: Err(
                content_failure(
                    record_line(user),
                    file_path,
                    outcomes[commands_needed(directory) - 1]->Err_0,
                ),
            ),
        }),
{
    reveal_with_fuel(run, 4);
    lemma_outcomes_in_order(outcomes);
}

/// An exchange that ends with the record gave these commands and no others:
/// to create the directories, where the path has any; to create or empty the
/// file at the path; and to write the line of this user into it.
pub proof fn lemma_success_writes_one_line(
    file_path: Seq<char>,
    directory: Option<Seq<char>>,
    user: UserEntityView,
    outcomes: Seq<Result<(), Seq<char>>>,
)
    requires
        run(first_step(file_path, directory, user), outcomes) matches StepView::Finished {
            result: Ok(_),
        },
    ensures
        commands(first_step(file_path, directory, user), outcomes) == (match directory {
            Some(d) => seq![FileCommandView::CreateDirectories { directory: d }],
            None => Seq::<FileCommandView>::empty(),
        }) + seq![
            FileCommandView::CreateFile { path: file_path },
            FileCommandView::WriteAll { content: record_line(user) },
        ],
{
    lemma_success_returns_the_inputs(file_path, directory, user, outcomes);
    lemma_outcomes_in_order(outcomes);
    reveal_with_fuel(commands, 4);
    assert(commands(first_step(file_path, directory, user), outcomes) =~= (match directory {
        Some(d) => seq![FileCommandView::CreateDirectories { directory: d }],
        None => Seq::<FileCommandView>::empty(),
    }) + seq![
        FileCommandView::CreateFile { path: file_path },
        FileCommandView::WriteAll { content: record_line(user) },
    ]);
}

/// Two users recorded at one path, one after the other: the last two commands
/// of all that were given empty the file and write the line of the second
/// user. What the first exchange wrote is replaced, not added to.
pub proof fn lemma_second_record_replaces_first(
    file_path: Seq<char>,
    first_directory: Option<Seq<char>>,
    first_user: UserEntityView,
    first_outcomes: Seq<Result<(), Seq<char>>>,
    second_directory: Option<Seq<char>>,
    second_user: UserEntityView,
    second_outcomes: Seq<Result<(), Seq<char>>>,
)
    requires
        run(first_step(file_path, first_directory, first_user), first_outcomes)
            matches StepView::Finished { result: Ok(_) },
        run(first_step(file_path, second_directory, second_user), second_outcomes)
            matches StepView::Finished { result: Ok(_) },
    ensures
        ({
            let all = commands(first_step(file_path, first_directory, first_user), first_outcomes)
                + commands(first_step(file_path, second_directory, second_user), second_outcomes);
            &&& all.len() >= 4
            &&& all[all.len() - 2] == (FileCommandView::CreateFile { path: file_path })
            &&& all[all.len() - 1] == (FileCommandView::WriteAll {
                content: record_line(second_user),
            })
        }),
{
    lemma_success_writes_one_line(file_path, first_directory, first_user, first_outcomes);
    lemma_success_writes_one_line(file_path, second_directory, second_user, second_outcomes);
}

} // verus!
