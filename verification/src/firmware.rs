//! Firmware management: the driver repositories of each board family, the boards and
//! their firmware, batch operations and the status line of each repository.
use vstd::prelude::*;
use crate::entries::{entries_view, set_entry, with_entry};
use crate::text::{append_decimal, append_str, decimal, owned, same_text, trim, trimmed};

verus! {

/// A driver repository; `last_updated` is in Unix seconds.
#[derive(Debug, Clone)]
pub struct FirmwareRepo {
    pub name: String,
    pub display_name: String,
    pub repo_url: String,
    pub local_path: String,
    pub update_command: String,
    pub is_cloned: bool,
    pub last_updated: Option<i64>,
    pub last_commit: String,
    pub branch: String,
}

impl FirmwareRepo {
    /// A copy of this repository.
    pub fn duplicate(&self) -> (r: FirmwareRepo)
        ensures
            r == *self,
    {
        FirmwareRepo {
            name: self.name.clone(),
            display_name: self.display_name.clone(),
            repo_url: self.repo_url.clone(),
            local_path: self.local_path.clone(),
            update_command: self.update_command.clone(),
            is_cloned: self.is_cloned,
            last_updated: self.last_updated,
            last_commit: self.last_commit.clone(),
            branch: self.branch.clone(),
        }
    }
}

/// A board and the firmware it runs.
#[derive(Debug, Clone)]
pub struct BoardInfo {
    pub board_type: String,
    pub stack_level: u8,
    pub firmware_version: String,
    pub status: String,
    pub repo_name: String,
    pub serial_number: String,
    pub needs_update: bool,
}

impl BoardInfo {
    /// A copy of this board.
    pub fn duplicate(&self) -> (r: BoardInfo)
        ensures
            r == *self,
    {
        BoardInfo {
            board_type: self.board_type.clone(),
            stack_level: self.stack_level,
            firmware_version: self.firmware_version.clone(),
            status: self.status.clone(),
            repo_name: self.repo_name.clone(),
            serial_number: self.serial_number.clone(),
            needs_update: self.needs_update,
        }
    }
}

/// The boards of `boards` whose driver family is `repo_name`, in order.
pub open spec fn boards_of_repo(boards: Seq<BoardInfo>, repo_name: Seq<char>) -> Seq<BoardInfo> {
    boards.filter(|b: BoardInfo| b.repo_name@ == repo_name)
}

/// The number of `true` flags.
pub open spec fn count_true(flags: Seq<bool>) -> nat
    decreases flags.len(),
{
    if flags.len() == 0 {
        0
    } else {
        count_true(flags.drop_last()) + if flags.last() { 1nat } else { 0nat }
    }
}

/// How an external command went: it succeeded, failed with this error output, or could
/// not be started for this reason.
#[derive(Debug, Clone)]
pub enum CommandOutcome {
    Succeeded,
    Failed(String),
    CouldNotRun(String),
}

/// One step of a batch operation.
#[derive(Debug, Clone)]
pub enum FirmwareTask {
    Clone(usize),
    Pull(usize),
    Install(usize),
    UpdateFirmware { repo_name: String, stack_level: u8 },
}

fn repo(name: &str, display_name: &str, url: &str, path: &str, cloned: bool, last_updated: Option<i64>, commit: &str) -> (r: FirmwareRepo)
    ensures
        r.name@ == name@,
        r.display_name@ == display_name@,
        r.repo_url@ == url@,
        r.local_path@ == path@,
        r.update_command@ == "sudo make install"@,
        r.is_cloned == cloned,
        r.last_updated == last_updated,
        r.last_commit@ == commit@,
        r.branch@ == "main"@,
{
    FirmwareRepo {
        name: owned(name),
        display_name: owned(display_name),
        repo_url: owned(url),
        local_path: owned(path),
        update_command: owned("sudo make install"),
        is_cloned: cloned,
        last_updated,
        last_commit: owned(commit),
        branch: owned("main"),
    }
}

/// The message after an operation: the success text, or the failure prefix and the
/// command's error output, or the error prefix and the reason it could not run.
pub open spec fn outcome_message(outcome: CommandOutcome, success: Seq<char>, failed: Seq<char>, error: Seq<char>) -> Seq<char> {
    match outcome {
        CommandOutcome::Succeeded => success,
        CommandOutcome::Failed(e) => failed + e@,
        CommandOutcome::CouldNotRun(e) => error + e@,
    }
}

fn outcome_text(outcome: &CommandOutcome, success: &str, failed: &str, error: &str) -> (m: String)
    ensures
        m@ == outcome_message(*outcome, success@, failed@, error@),
{
    match outcome {
        CommandOutcome::Succeeded => owned(success),
        CommandOutcome::Failed(e) => {
            let mut m = owned(failed);
            append_str(&mut m, e.as_str());
            m
        },
        CommandOutcome::CouldNotRun(e) => {
            let mut m = owned(error);
            append_str(&mut m, e.as_str());
            m
        },
    }
}

/// The shell command that updates the firmware of a board of family `repo_name` at
/// stack level `stack`, for the four known families.
pub open spec fn firmware_update_text(repo_name: Seq<char>, stack: u8) -> Option<Seq<char>> {
    if repo_name == "megabas"@ || repo_name == "megaind"@ || repo_name == "16relind"@ || repo_name == "16univin"@ {
        Some(repo_name + " "@ + decimal(stack as nat) + " update"@)
    } else {
        None
    }
}

/// The shell command that updates a board's firmware, if its family is known.
pub fn firmware_update_command(repo_name: &str, stack_level: u8) -> (c: Option<String>)
    ensures
        match c {
            Some(c) => firmware_update_text(repo_name@, stack_level) == Some(c@),
            None => firmware_update_text(repo_name@, stack_level) is None,
        },
{
    if same_text(repo_name, "megabas") || same_text(repo_name, "megaind") || same_text(repo_name, "16relind")
        || same_text(repo_name, "16univin") {
        let mut c = owned(repo_name);
        append_str(&mut c, " ");
        append_decimal(&mut c, stack_level as u64);
        append_str(&mut c, " update");
        Some(c)
    } else {
        None
    }
}

/// The tasks of a batch operation over the repositories (cloned or not) and the boards.
pub open spec fn batch_tasks_of(op: Seq<char>, cloned: Seq<bool>, boards: Seq<(Seq<char>, u8)>) -> Seq<FirmwareTaskView> {
    if op == "clone_all"@ {
        repo_tasks(cloned, false, 0)
    } else if op == "update_all"@ {
        repo_tasks(cloned, true, 1)
    } else if op == "install_all"@ {
        repo_tasks(cloned, true, 2)
    } else if op == "firmware_all"@ {
        boards.map_values(|b: (Seq<char>, u8)| FirmwareTaskView { kind: 3, index: 0, repo_name: b.0, stack_level: b.1 })
    } else {
        Seq::empty()
    }
}

/// The contents of a task: `kind` 0 clones, 1 pulls, 2 installs repository `index`;
/// `kind` 3 updates the firmware of a board.
pub struct FirmwareTaskView {
    pub kind: int,
    pub index: int,
    pub repo_name: Seq<char>,
    pub stack_level: u8,
}

impl FirmwareTask {
    /// What a firmware step does, as plain values.
    pub open spec fn task_view(self) -> FirmwareTaskView {
        match self {
            FirmwareTask::Clone(i) => FirmwareTaskView { kind: 0, index: i as int, repo_name: Seq::empty(), stack_level: 0 },
            FirmwareTask::Pull(i) => FirmwareTaskView { kind: 1, index: i as int, repo_name: Seq::empty(), stack_level: 0 },
            FirmwareTask::Install(i) => FirmwareTaskView { kind: 2, index: i as int, repo_name: Seq::empty(), stack_level: 0 },
            FirmwareTask::UpdateFirmware { repo_name, stack_level } => FirmwareTaskView {
                kind: 3,
                index: 0,
                repo_name: repo_name@,
                stack_level,
            },
        }
    }
}

/// The repository tasks of kind `kind` for the repositories whose cloned flag is `want`,
/// in order.
pub open spec fn repo_tasks(cloned: Seq<bool>, want: bool, kind: int) -> Seq<FirmwareTaskView>
    decreases cloned.len(),
{
    if cloned.len() == 0 {
        Seq::empty()
    } else if cloned.last() == want {
        repo_tasks(cloned.drop_last(), want, kind).push(
            FirmwareTaskView { kind, index: cloned.len() - 1, repo_name: Seq::empty(), stack_level: 0 },
        )
    } else {
        repo_tasks(cloned.drop_last(), want, kind)
    }
}

/// What a batch operation does, in words.
pub open spec fn batch_operation_text(op: Seq<char>) -> Seq<char> {
    if op == "clone_all"@ {
        "Clone all missing repositories"@
    } else if op == "update_all"@ {
        "Pull updates for all cloned repositories"@
    } else if op == "install_all"@ {
        "Install drivers for all cloned repositories"@
    } else if op == "firmware_all"@ {
        "Update firmware on all connected boards"@
    } else {
        "Unknown operation"@
    }
}

/// What a batch operation does, in words.
pub fn batch_operation_name(op: &str) -> (t: &'static str)
    ensures
        t@ == batch_operation_text(op@),
{
    if same_text(op, "clone_all") {
        "Clone all missing repositories"
    } else if same_text(op, "update_all") {
        "Pull updates for all cloned repositories"
    } else if same_text(op, "install_all") {
        "Install drivers for all cloned repositories"
    } else if same_text(op, "firmware_all") {
        "Update firmware on all connected boards"
    } else {
        "Unknown operation"
    }
}

/// The firmware repositories and boards, and what was last done to each repository.
pub struct FirmwareManager {
    repos: Vec<FirmwareRepo>,
    boards: Vec<BoardInfo>,
    operation_status: Vec<(String, String)>,
    batch_operation: String,
    show_batch_confirm: bool,
    commit_history: Vec<String>,
    auto_update_enabled: bool,
    update_schedule: String,
}

impl FirmwareManager {
    /// The repositories.
    pub closed spec fn repos(&self) -> Seq<FirmwareRepo> {
        self.repos@
    }

    /// The boards.
    pub closed spec fn boards(&self) -> Seq<BoardInfo> {
        self.boards@
    }

    /// The status line of each repository that has one.
    pub closed spec fn statuses(&self) -> Seq<(Seq<char>, Seq<char>)> {
        entries_view(self.operation_status@)
    }

    /// The batch operation chosen.
    pub closed spec fn batch(&self) -> Seq<char> {
        self.batch_operation@
    }

    /// Whether the chosen batch operation waits for confirmation.
    pub closed spec fn batch_confirm_shown(&self) -> bool {
        self.show_batch_confirm
    }

    /// The cloned flag of each repository.
    pub open spec fn cloned_flags(&self) -> Seq<bool> {
        self.repos().map_values(|r: FirmwareRepo| r.is_cloned)
    }

    /// The family and stack level of each board.
    pub open spec fn board_targets(&self) -> Seq<(Seq<char>, u8)> {
        self.boards().map_values(|b: BoardInfo| (b.repo_name@, b.stack_level))
    }

    /// The manager the panel starts with at `now`: the MegaBAS and MegaIND repositories
    /// cloned and updated at `now`, the 16-relay and 16-input ones not cloned; a MegaBAS
    /// at stack 0 on firmware 2.0.5 and a MegaIND at stack 1 on 1.3.2 that needs an update.
    pub fn new(now: i64) -> (m: FirmwareManager)
        ensures
            m.repos().len() == 4,
            m.repos()[0].name@ == "megabas"@ && m.repos()[0].is_cloned && m.repos()[0].last_updated == Some(now)
                && m.repos()[0].last_commit@ == "a3f2b1c"@,
            m.repos()[1].name@ == "megaind"@ && m.repos()[1].is_cloned && m.repos()[1].last_updated == Some(now)
                && m.repos()[1].last_commit@ == "b4e5d2a"@,
            m.repos()[2].name@ == "16relind"@ && !m.repos()[2].is_cloned && m.repos()[2].last_updated is None,
            m.repos()[3].name@ == "16univin"@ && !m.repos()[3].is_cloned && m.repos()[3].last_updated is None,
            m.boards().len() == 2,
            m.boards()[0].board_type@ == "MegaBAS"@ && m.boards()[0].stack_level == 0
                && m.boards()[0].firmware_version@ == "2.0.5"@ && m.boards()[0].repo_name@ == "megabas"@
                && !m.boards()[0].needs_update,
            m.boards()[1].board_type@ == "MegaIND"@ && m.boards()[1].stack_level == 1
                && m.boards()[1].firmware_version@ == "1.3.2"@ && m.boards()[1].repo_name@ == "megaind"@
                && m.boards()[1].needs_update,
            m.statuses().len() == 0,
            m.batch().len() == 0,
            !m.batch_confirm_shown(),
    {
        let repos = vec![
            repo(
                "megabas",
                "MegaBAS - Building Automation",
                "https://github.com/SequentMicrosystems/megabas-rpi",
                "/home/pi/firmware/megabas-rpi",
                true,
                Some(now),
                "a3f2b1c",
            ),
            repo(
                "megaind",
                "MegaIND - Industrial I/O",
                "https://github.com/SequentMicrosystems/megaind-rpi",
                "/home/pi/firmware/megaind-rpi",
                true,
                Some(now),
                "b4e5d2a",
            ),
            repo(
                "16relind",
                "16-RELAYS - Relay Control",
                "https://github.com/SequentMicrosystems/16relind-rpi",
                "/home/pi/firmware/16relind-rpi",
                false,
                None,
                "",
            ),
            repo(
                "16univin",
                "16-UNIVIN - Universal Inputs",
                "https://github.com/SequentMicrosystems/16univin-rpi",
                "/home/pi/firmware/16univin-rpi",
                false,
                None,
                "",
            ),
        ];
        let boards = vec![
            BoardInfo {
                board_type: owned("MegaBAS"),
                stack_level: 0,
                firmware_version: owned("2.0.5"),
                status: owned("Connected"),
                repo_name: owned("megabas"),
                serial_number: owned("MB2023001"),
                needs_update: false,
            },
            BoardInfo {
                board_type: owned("MegaIND"),
                stack_level: 1,
                firmware_version: owned("1.3.2"),
                status: owned("Connected"),
                repo_name: owned("megaind"),
                serial_number: owned("MI2023045"),
                needs_update: true,
            },
        ];
        let commit_history = vec![
            owned("a3f2b1c - Fix temperature sensor calibration"),
            owned("d2e4f5a - Add support for 4-20mA inputs"),
            owned("b1c3d4e - Update I2C communication protocol"),
            owned("f5a6b7c - Improve relay switching speed"),
        ];
        let m = FirmwareManager {
            repos,
            boards,
            operation_status: Vec::new(),
            batch_operation: String::new(),
            show_batch_confirm: false,
            commit_history,
            auto_update_enabled: false,
            update_schedule: owned("Daily at 3:00 AM"),
        };
        assert(m.statuses() =~= Seq::<(Seq<char>, Seq<char>)>::empty());
        m
    }

    /// The repositories.
    pub fn get_repos(&self) -> (r: &Vec<FirmwareRepo>)
        ensures
            r@ == self.repos(),
    {
        &self.repos
    }

    /// The boards.
    pub fn get_boards(&self) -> (r: &Vec<BoardInfo>)
        ensures
            r@ == self.boards(),
    {
        &self.boards
    }

    /// The status line of each repository that has one.
    pub fn operation_status(&self) -> (r: &Vec<(String, String)>)
        ensures
            entries_view(r@) == self.statuses(),
    {
        &self.operation_status
    }

    /// Chooses the batch operation and asks for its confirmation.
    pub fn set_batch_operation(&mut self, op: &str)
        ensures
            final(self).batch() == op@,
            final(self).batch_confirm_shown(),
            final(self).repos() == old(self).repos(),
            final(self).boards() == old(self).boards(),
            final(self).statuses() == old(self).statuses(),
    {
        self.batch_operation = owned(op);
        self.show_batch_confirm = true;
    }

    /// Closes the confirmation of the batch operation without running it.
    pub fn cancel_batch(&mut self)
        ensures
            !final(self).batch_confirm_shown(),
            final(self).batch() == old(self).batch(),
            final(self).repos() == old(self).repos(),
            final(self).boards() == old(self).boards(),
            final(self).statuses() == old(self).statuses(),
    {
        self.show_batch_confirm = false;
    }

    /// Confirms the batch operation: while its confirmation is shown, closes it and gives
    /// the operation's tasks to run; otherwise gives no task and changes nothing. A batch
    /// thus runs only once it has been chosen and then confirmed.
    pub fn confirm_batch(&mut self) -> (t: Vec<FirmwareTask>)
        ensures
            !final(self).batch_confirm_shown(),
            final(self).batch() == old(self).batch(),
            final(self).repos() == old(self).repos(),
            final(self).boards() == old(self).boards(),
            final(self).statuses() == old(self).statuses(),
            old(self).batch_confirm_shown() ==> t@.map_values(|x: FirmwareTask| x.task_view())
                == batch_tasks_of(old(self).batch(), old(self).cloned_flags(), old(self).board_targets()),
            !old(self).batch_confirm_shown() ==> t@.len() == 0,
    {
        if !self.show_batch_confirm {
            return Vec::new();
        }
        let t = self.batch_tasks();
        self.show_batch_confirm = false;
        t
    }

    /// The question that asks to confirm the chosen batch operation.
    pub fn batch_confirm_question(&self) -> (q: String)
        ensures
            q@ == "Are you sure you want to "@ + batch_operation_text(self.batch()) + "?"@,
    {
        let mut q = owned("Are you sure you want to ");
        append_str(&mut q, batch_operation_name(self.batch_operation.as_str()));
        append_str(&mut q, "?");
        q
    }

    /// Sets the status line of `key` to `msg`.
    fn set_status(&mut self, key: &str, msg: String)
        ensures
            final(self).statuses() == with_entry(old(self).statuses(), key@, msg@),
            final(self).repos() == old(self).repos(),
            final(self).boards() == old(self).boards(),
            final(self).batch() == old(self).batch(),
    {
        set_entry(&mut self.operation_status, key, msg);
    }

    /// Shows that an operation on repository `idx` has begun: `kind` 0 clones it, 1
    /// pulls it, 2 installs its drivers. Nothing changes for an index past the list.
    pub fn begin_operation(&mut self, idx: usize, kind: u8)
        requires
            kind < 3,
        ensures
            idx < old(self).repos().len() ==> final(self).statuses() == with_entry(
                old(self).statuses(),
                old(self).repos()[idx as int].name@,
                if kind == 0 {
                    "Cloning repository..."@
                } else if kind == 1 {
                    "Pulling updates..."@
                } else {
                    "Installing drivers..."@
                },
            ),
            idx >= old(self).repos().len() ==> final(self).statuses() == old(self).statuses(),
            final(self).repos() == old(self).repos(),
            final(self).boards() == old(self).boards(),
    {
        if idx < self.repos.len() {
            let name = self.repos[idx].name.clone();
            let msg = if kind == 0 {
                owned("Cloning repository...")
            } else if kind == 1 {
                owned("Pulling updates...")
            } else {
                owned("Installing drivers...")
            };
            self.set_status(name.as_str(), msg);
        }
    }

    /// Records how the clone of repository `idx` went at `now`: on success it is cloned
    /// and updated at `now`.
    pub fn finish_clone(&mut self, idx: usize, outcome: CommandOutcome, now: i64)
        ensures
            idx < old(self).repos().len() ==> final(self).statuses() == with_entry(
                old(self).statuses(),
                old(self).repos()[idx as int].name@,
                outcome_message(outcome, "Successfully cloned!"@, "Clone failed: "@, "Clone error: "@),
            ) && final(self).repos().len() == old(self).repos().len()
                && (forall|j: int| 0 <= j < old(self).repos().len() && j != idx ==> final(self).repos()[j] == old(self).repos()[j])
                && (outcome is Succeeded ==> final(self).repos()[idx as int].is_cloned
                    && final(self).repos()[idx as int].last_updated == Some(now))
                && (!(outcome is Succeeded) ==> final(self).repos()[idx as int] == old(self).repos()[idx as int]),
            idx >= old(self).repos().len() ==> final(self).statuses() == old(self).statuses()
                && final(self).repos() == old(self).repos(),
            final(self).boards() == old(self).boards(),
    {
        if idx >= self.repos.len() {
            return;
        }
        let name = self.repos[idx].name.clone();
        let msg = outcome_text(&outcome, "Successfully cloned!", "Clone failed: ", "Clone error: ");
        if let CommandOutcome::Succeeded = outcome {
            let mut r = self.repos[idx].duplicate();
            r.is_cloned = true;
            r.last_updated = Some(now);
            self.repos.set(idx, r);
        }
        self.set_status(name.as_str(), msg);
    }

    /// Records how the pull of repository `idx` went at `now`; `head` is what
    /// `git rev-parse --short HEAD` printed afterwards, if it ran. On success the
    /// repository is updated at `now` and its last commit is the trimmed `head`.
    pub fn finish_pull(&mut self, idx: usize, outcome: CommandOutcome, head: Option<String>, now: i64)
        ensures
            idx < old(self).repos().len() ==> final(self).statuses() == with_entry(
                old(self).statuses(),
                old(self).repos()[idx as int].name@,
                outcome_message(outcome, "Updates pulled successfully!"@, "Pull failed: "@, "Pull error: "@),
            ) && final(self).repos().len() == old(self).repos().len()
                && (forall|j: int| 0 <= j < old(self).repos().len() && j != idx ==> final(self).repos()[j] == old(self).repos()[j])
                && (outcome is Succeeded ==> final(self).repos()[idx as int].last_updated == Some(now)
                    && final(self).repos()[idx as int].last_commit@ == match head {
                        Some(h) => trimmed(h@),
                        None => old(self).repos()[idx as int].last_commit@,
                    })
                && (!(outcome is Succeeded) ==> final(self).repos()[idx as int] == old(self).repos()[idx as int]),
            idx >= old(self).repos().len() ==> final(self).statuses() == old(self).statuses()
                && final(self).repos() == old(self).repos(),
            final(self).boards() == old(self).boards(),
    {
        if idx >= self.repos.len() {
            return;
        }
        let name = self.repos[idx].name.clone();
        let msg = outcome_text(&outcome, "Updates pulled successfully!", "Pull failed: ", "Pull error: ");
        if let CommandOutcome::Succeeded = outcome {
            let mut r = self.repos[idx].duplicate();
            r.last_updated = Some(now);
            match &head {
                Some(h) => {
                    r.last_commit = trim(h.as_str());
                },
                None => {},
            }
            self.repos.set(idx, r);
        }
        self.set_status(name.as_str(), msg);
    }

    /// Records how the driver installation of repository `idx` went.
    pub fn finish_install(&mut self, idx: usize, outcome: CommandOutcome)
        ensures
            idx < old(self).repos().len() ==> final(self).statuses() == with_entry(
                old(self).statuses(),
                old(self).repos()[idx as int].name@,
                outcome_message(outcome, "Drivers installed successfully!"@, "Install failed: "@, "Install error: "@),
            ),
            idx >= old(self).repos().len() ==> final(self).statuses() == old(self).statuses(),
            final(self).repos() == old(self).repos(),
            final(self).boards() == old(self).boards(),
    {
        if idx >= self.repos.len() {
            return;
        }
        let name = self.repos[idx].name.clone();
        let msg = outcome_text(&outcome, "Drivers installed successfully!", "Install failed: ", "Install error: ");
        self.set_status(name.as_str(), msg);
    }

    /// Records a status check of repository `idx`: whether its directory exists, what
    /// `git rev-parse --short HEAD` printed, and the time of its last fetch. Only a
    /// cloned repository takes the commit (trimmed) and the fetch time.
    pub fn record_refresh(&mut self, idx: usize, exists: bool, head: Option<String>, fetched_at: Option<i64>)
        ensures
            idx < old(self).repos().len() ==> final(self).repos().len() == old(self).repos().len()
                && (forall|j: int| 0 <= j < old(self).repos().len() && j != idx ==> final(self).repos()[j] == old(self).repos()[j])
                && final(self).repos()[idx as int].is_cloned == exists
                && final(self).repos()[idx as int].last_commit@ == (if exists && head is Some {
                    trimmed(head->Some_0@)
                } else {
                    old(self).repos()[idx as int].last_commit@
                })
                && final(self).repos()[idx as int].last_updated == (if exists && fetched_at is Some {
                    fetched_at
                } else {
                    old(self).repos()[idx as int].last_updated
                }),
            idx >= old(self).repos().len() ==> final(self).repos() == old(self).repos(),
            final(self).statuses() == old(self).statuses(),
            final(self).boards() == old(self).boards(),
    {
        if idx >= self.repos.len() {
            return;
        }
        let mut r = self.repos[idx].duplicate();
        r.is_cloned = exists;
        if exists {
            match &head {
                Some(h) => {
                    r.last_commit = trim(h.as_str());
                },
                None => {},
            }
            if fetched_at.is_some() {
                r.last_updated = fetched_at;
            }
        }
        self.repos.set(idx, r);
    }

    /// How many repositories are cloned.
    pub fn cloned_count(&self) -> (n: usize)
        ensures
            n == count_true(self.cloned_flags()),
    {
        let ghost flags = self.cloned_flags();
        let mut n: usize = 0;
        let mut i: usize = 0;
        while i < self.repos.len()
            invariant
                flags == self.cloned_flags(),
                i <= self.repos@.len(),
                n == count_true(flags.take(i as int)),
                n <= i,
            decreases self.repos@.len() - i,
        {
            assert(flags.take(i + 1).drop_last() =~= flags.take(i as int));
            assert(flags.take(i + 1).last() == self.repos@[i as int].is_cloned);
            if self.repos[i].is_cloned {
                n = n + 1;
            }
            i = i + 1;
        }
        assert(flags.take(self.repos@.len() as int) =~= flags);
        n
    }

    /// The boards that run the drivers of repository family `repo_name`, in order.
    pub fn connected_boards(&self, repo_name: &str) -> (r: Vec<BoardInfo>)
        ensures
            r@ == boards_of_repo(self.boards(), repo_name@),
    {
        let ghost bs = self.boards();
        let mut r: Vec<BoardInfo> = Vec::new();
        let mut i: usize = 0;
        assert(bs.take(0).filter(|b: BoardInfo| b.repo_name@ == repo_name@) =~= Seq::<BoardInfo>::empty());
        while i < self.boards.len()
            invariant
                bs == self.boards(),
                i <= bs.len(),
                r@ == bs.take(i as int).filter(|b: BoardInfo| b.repo_name@ == repo_name@),
            decreases bs.len() - i,
        {
            proof {
                assert(bs.take(i + 1).drop_last() =~= bs.take(i as int));
                reveal(Seq::filter);
            }
            if same_text(self.boards[i].repo_name.as_str(), repo_name) {
                r.push(self.boards[i].duplicate());
            }
            i = i + 1;
        }
        assert(bs.take(bs.len() as int) =~= bs);
        r
    }

    /// The tasks of the chosen batch operation: clone every repository not cloned,
    /// pull or install every cloned one, or update the firmware of every board.
    pub fn batch_tasks(&self) -> (t: Vec<FirmwareTask>)
        ensures
            t@.map_values(|x: FirmwareTask| x.task_view()) == batch_tasks_of(
                self.batch(),
                self.cloned_flags(),
                self.board_targets(),
            ),
    {
        let mut t: Vec<FirmwareTask> = Vec::new();
        let ghost flags = self.cloned_flags();
        let ghost op = self.batch();
        let kind: u8 = if same_text(self.batch_operation.as_str(), "clone_all") {
            0
        } else if same_text(self.batch_operation.as_str(), "update_all") {
            1
        } else if same_text(self.batch_operation.as_str(), "install_all") {
            2
        } else if same_text(self.batch_operation.as_str(), "firmware_all") {
            3
        } else {
            4
        };
        if kind < 3 {
            let want = kind != 0;
            let mut i: usize = 0;
            while i < self.repos.len()
                invariant
                    flags == self.cloned_flags(),
                    kind < 3,
                    want == (kind != 0),
                    i <= self.repos@.len(),
                    t@.map_values(|x: FirmwareTask| x.task_view()) == repo_tasks(flags.take(i as int), want, kind as int),
                decreases self.repos@.len() - i,
            {
                assert(flags.take(i + 1).drop_last() =~= flags.take(i as int));
                assert(flags.take(i + 1).last() == self.repos@[i as int].is_cloned);
                if self.repos[i].is_cloned == want {
                    let task = if kind == 0 {
                        FirmwareTask::Clone(i)
                    } else if kind == 1 {
                        FirmwareTask::Pull(i)
                    } else {
                        FirmwareTask::Install(i)
                    };
                    let ghost before = t@;
                    t.push(task);
                    assert(t@.map_values(|x: FirmwareTask| x.task_view()) =~= before.map_values(
                        |x: FirmwareTask| x.task_view(),
                    ).push(task.task_view()));
                }
                i = i + 1;
            }
            assert(flags.take(self.repos@.len() as int) =~= flags);
        } else if kind == 3 {
            let ghost targets = self.board_targets();
            let mut i: usize = 0;
            while i < self.boards.len()
                invariant
                    targets == self.board_targets(),
                    i <= self.boards@.len(),
                    t@.len() == i,
                    forall|k: int| 0 <= k < i ==> (#[trigger] t@[k]).task_view() == (FirmwareTaskView {
                        kind: 3,
                        index: 0,
                        repo_name: targets[k].0,
                        stack_level: targets[k].1,
                    }),
                decreases self.boards@.len() - i,
            {
                t.push(FirmwareTask::UpdateFirmware {
                    repo_name: self.boards[i].repo_name.clone(),
                    stack_level: self.boards[i].stack_level,
                });
                i = i + 1;
            }
            assert(t@.map_values(|x: FirmwareTask| x.task_view()) =~= targets.map_values(
                |b: (Seq<char>, u8)| FirmwareTaskView { kind: 3, index: 0, repo_name: b.0, stack_level: b.1 },
            ));
        }
        t
    }
}

/// The repository tasks of kind `kind` for the flag `want` are tasks of that kind on
/// exactly the repositories whose cloned flag is `want`.
proof fn lemma_repo_tasks(cloned: Seq<bool>, want: bool, kind: int)
    ensures
        forall|j: int|
            0 <= j < repo_tasks(cloned, want, kind).len() ==> {
                let t = #[trigger] repo_tasks(cloned, want, kind)[j];
                &&& t.kind == kind
                &&& 0 <= t.index < cloned.len()
                &&& cloned[t.index] == want
            },
        forall|i: int|
            0 <= i < cloned.len() && #[trigger] cloned[i] == want ==> exists|j: int|
                0 <= j < repo_tasks(cloned, want, kind).len() && repo_tasks(cloned, want, kind)[j].index == i,
    decreases cloned.len(),
{
    if cloned.len() > 0 {
        let init = cloned.drop_last();
        lemma_repo_tasks(init, want, kind);
        let p = repo_tasks(init, want, kind);
        let q = repo_tasks(cloned, want, kind);
        assert forall|j: int| 0 <= j < q.len() implies {
            let t = #[trigger] q[j];
            &&& t.kind == kind
            &&& 0 <= t.index < cloned.len()
            &&& cloned[t.index] == want
        } by {
            if j < p.len() {
                assert(q[j] == p[j]);
                assert(cloned[p[j].index] == init[p[j].index]);
            }
        }
        assert forall|i: int| 0 <= i < cloned.len() && #[trigger] cloned[i] == want implies exists|j: int|
            0 <= j < q.len() && q[j].index == i by {
            if i < init.len() {
                assert(init[i] == cloned[i]);
                let j = choose|j: int| 0 <= j < p.len() && p[j].index == i;
                assert(q[j] == p[j]);
            } else {
                assert(q[q.len() - 1].index == i);
            }
        }
    }
}

/// Law: what each batch operation does to the repositories and boards. `clone_all`
/// clones exactly the repositories that are not cloned, `update_all` pulls and
/// `install_all` installs exactly the cloned ones, each task naming a repository of the
/// list; `firmware_all` updates every board, in order, by its family and stack level.
pub proof fn law_batch_tasks_follow_cloned_flags(cloned: Seq<bool>, boards: Seq<(Seq<char>, u8)>)
    ensures
        forall|j: int|
            0 <= j < batch_tasks_of("clone_all"@, cloned, boards).len() ==> {
                let t = #[trigger] batch_tasks_of("clone_all"@, cloned, boards)[j];
                t.kind == 0 && 0 <= t.index < cloned.len() && !cloned[t.index]
            },
        forall|i: int|
            0 <= i < cloned.len() && !#[trigger] cloned[i] ==> exists|j: int|
                0 <= j < batch_tasks_of("clone_all"@, cloned, boards).len()
                    && batch_tasks_of("clone_all"@, cloned, boards)[j].index == i,
        forall|j: int|
            0 <= j < batch_tasks_of("update_all"@, cloned, boards).len() ==> {
                let t = #[trigger] batch_tasks_of("update_all"@, cloned, boards)[j];
                t.kind == 1 && 0 <= t.index < cloned.len() && cloned[t.index]
            },
        forall|i: int|
            0 <= i < cloned.len() && #[trigger] cloned[i] ==> exists|j: int|
                0 <= j < batch_tasks_of("update_all"@, cloned, boards).len()
                    && batch_tasks_of("update_all"@, cloned, boards)[j].index == i,
        forall|j: int|
            0 <= j < batch_tasks_of("install_all"@, cloned, boards).len() ==> {
                let t = #[trigger] batch_tasks_of("install_all"@, cloned, boards)[j];
                t.kind == 2 && 0 <= t.index < cloned.len() && cloned[t.index]
            },
        forall|i: int|
            0 <= i < cloned.len() && #[trigger] cloned[i] ==> exists|j: int|
                0 <= j < batch_tasks_of("install_all"@, cloned, boards).len()
                    && batch_tasks_of("install_all"@, cloned, boards)[j].index == i,
        batch_tasks_of("firmware_all"@, cloned, boards).len() == boards.len(),
        forall|j: int|
            0 <= j < boards.len() ==> {
                let t = #[trigger] batch_tasks_of("firmware_all"@, cloned, boards)[j];
                t.kind == 3 && t.repo_name == boards[j].0 && t.stack_level == boards[j].1
            },
{
    reveal_strlit("clone_all");
    reveal_strlit("update_all");
    reveal_strlit("install_all");
    reveal_strlit("firmware_all");
    assert("clone_all"@[0] != "update_all"@[0]);
    assert("clone_all"@[0] != "install_all"@[0]);
    assert("clone_all"@[0] != "firmware_all"@[0]);
    assert("update_all"@[0] != "install_all"@[0]);
    assert("update_all"@[0] != "firmware_all"@[0]);
    assert("install_all"@[0] != "firmware_all"@[0]);
    lemma_repo_tasks(cloned, false, 0);
    lemma_repo_tasks(cloned, true, 1);
    lemma_repo_tasks(cloned, true, 2);
    let c = repo_tasks(cloned, false, 0);
    let u = repo_tasks(cloned, true, 1);
    let n = repo_tasks(cloned, true, 2);
    assert(batch_tasks_of("clone_all"@, cloned, boards) == c);
    assert(batch_tasks_of("update_all"@, cloned, boards) == u);
    assert(batch_tasks_of("install_all"@, cloned, boards) == n);
    assert forall|i: int| 0 <= i < cloned.len() && !#[trigger] cloned[i] implies exists|j: int|
        0 <= j < c.len() && c[j].index == i by {
        assert(cloned[i] == false);
    }
    assert forall|i: int| 0 <= i < cloned.len() && #[trigger] cloned[i] implies exists|j: int|
        0 <= j < u.len() && u[j].index == i by {
        assert(cloned[i] == true);
    }
    assert forall|i: int| 0 <= i < cloned.len() && #[trigger] cloned[i] implies exists|j: int|
        0 <= j < n.len() && n[j].index == i by {
        assert(cloned[i] == true);
    }
}

} // verus!
