//! The run state machine. It decides; its caller acts: the caller launches
//! the tool, reads its output and waits for its exit, hands each of these
//! to the machine as it happens, and carries out the actions it gets back.

use vstd::prelude::*;
use vstd::string::StringExecFns;
use crate::event::{
    action_views, format_log_entry, log_entry, Action, ActionView, Notice, NoticeView, StreamTag,
};
use crate::progress::{lemma_percent_formula, percent_of, progress_at, stage_progress};
use crate::stage::{stage_views, RunMode, StageInfo, StageView};
use crate::text::{lowercase_of, optional_code_text, push_optional_code, to_lowercase};
use crate::tracker::{advance_normalized, index_after, lemma_next_stage_exists, next_stage};

verus! {

/// Where a run stands. `Succeeded` and `Failed` are final.
#[derive(Clone, Copy, Debug, PartialEq, Eq, Structural)]
pub enum Phase {
    Starting,
    Running,
    Succeeded,
    Failed,
}

/// A run as plain data.
pub struct RunView {
    pub mode: RunMode,
    pub stage_index: usize,
    pub phase: Phase,
    pub exit_code: Option<i32>,
}

/// The state of one run.
pub struct RunState {
    mode: RunMode,
    stages: Vec<StageInfo>,
    stage_index: usize,
    phase: Phase,
    exit_code: Option<i32>,
}

/// The progress notice for stage `index` of `stages`.
pub open spec fn progress_notice(mode: RunMode, stages: Seq<StageView>, index: int) -> NoticeView {
    NoticeView::Progress {
        mode,
        stage_key: stages[index].key,
        stage_label: stages[index].label,
        progress: progress_at(index as nat, stages.len()),
    }
}

/// The message of a failed run. Where the tool left no exit code, -1 stands for it.
pub open spec fn exit_message(exit_code: Option<i32>) -> Seq<char> {
    let shown: i32 = match exit_code {
        Some(code) => code,
        None => -1i32,
    };
    "Pioneer exited with status "@ + optional_code_text(Some(shown))
}

/// A run is valid when its stage index lies in the stage table of its mode.
pub open spec fn valid_run(run: RunView) -> bool {
    run.stage_index < run.mode.spec_stage_sequence().len()
}

/// The run after `begin`.
pub open spec fn begun(run: RunView) -> RunView {
    if run.phase == Phase::Starting {
        RunView { phase: Phase::Running, ..run }
    } else {
        run
    }
}

/// What `begin` asks for: the progress notice of the current stage, once.
pub open spec fn begin_actions(run: RunView) -> Seq<ActionView> {
    if run.phase == Phase::Starting {
        seq![
            ActionView::Notify(
                progress_notice(run.mode, run.mode.spec_stage_sequence(), run.stage_index as int),
            ),
        ]
    } else {
        seq![]
    }
}

/// The stage index of a running run after a line with the normalized form `normalized`.
pub open spec fn index_after_line(run: RunView, normalized: Seq<char>) -> usize {
    index_after(
        run.stage_index,
        next_stage(normalized, run.stage_index as int, run.mode.spec_stage_sequence()),
    )
}

/// The run after a line.
pub open spec fn after_line(run: RunView, normalized: Seq<char>) -> RunView {
    if run.phase == Phase::Running {
        RunView { stage_index: index_after_line(run, normalized), ..run }
    } else {
        run
    }
}

/// What a line asks for: its log entry, its notice, and a progress notice
/// where the stage index moved forward. Nothing outside the running phase.
pub open spec fn line_actions(
    run: RunView,
    stream: StreamTag,
    line: Seq<char>,
    normalized: Seq<char>,
) -> Seq<ActionView> {
    if run.phase == Phase::Running {
        let logged = seq![
            ActionView::AppendLog(log_entry(stream, line)),
            ActionView::Notify(NoticeView::LogLine { mode: run.mode, stream, line }),
        ];
        let next = index_after_line(run, normalized);
        if next > run.stage_index {
            logged.push(
                ActionView::Notify(
                    progress_notice(run.mode, run.mode.spec_stage_sequence(), next as int),
                ),
            )
        } else {
            logged
        }
    } else {
        seq![]
    }
}

/// The run after the exit of the tool.
pub open spec fn after_exit(run: RunView, success: bool, exit_code: Option<i32>) -> RunView {
    if run.phase == Phase::Running {
        if success {
            RunView {
                stage_index: (run.mode.spec_stage_sequence().len() - 1) as usize,
                phase: Phase::Succeeded,
                exit_code,
                ..run
            }
        } else {
            RunView { phase: Phase::Failed, exit_code, ..run }
        }
    } else {
        run
    }
}

/// What the exit of the tool asks for. On success: the progress notice of
/// the last stage, then the completion notice. On failure: the completion
/// notice with the failure message. Nothing outside the running phase.
pub open spec fn exit_actions(run: RunView, success: bool, exit_code: Option<i32>) -> Seq<
    ActionView,
> {
    if run.phase == Phase::Running {
        if success {
            let stages = run.mode.spec_stage_sequence();
            seq![
                ActionView::Notify(progress_notice(run.mode, stages, stages.len() - 1)),
                ActionView::Notify(
                    NoticeView::RunComplete {
                        mode: run.mode,
                        success: true,
                        exit_code,
                        message: None,
                    },
                ),
            ]
        } else {
            seq![
                ActionView::Notify(
                    NoticeView::RunComplete {
                        mode: run.mode,
                        success: false,
                        exit_code,
                        message: Some(exit_message(exit_code)),
                    },
                ),
            ]
        }
    } else {
        seq![]
    }
}

/// What awaits a caller that waited for the run: nothing while the run is
/// not over, success, or the failure message.
pub open spec fn outcome_of(run: RunView) -> Option<Result<(), Seq<char>>> {
    match run.phase {
        Phase::Succeeded => Some(Ok(())),
        Phase::Failed => Some(Err(exit_message(run.exit_code))),
        _ => None,
    }
}

/// The log entries that a list of actions asks for, in order.
pub open spec fn log_entries(actions: Seq<ActionView>) -> Seq<Seq<char>>
    decreases actions.len(),
{
    if actions.len() == 0 {
        seq![]
    } else {
        match actions.last() {
            ActionView::AppendLog(entry) => log_entries(actions.drop_last()).push(entry),
            _ => log_entries(actions.drop_last()),
        }
    }
}

/// Every line that reaches a running run is logged exactly once, under the
/// tag of its stream; nothing else is ever logged.
pub proof fn lemma_one_log_entry_per_line(
    run: RunView,
    stream: StreamTag,
    line: Seq<char>,
    normalized: Seq<char>,
    success: bool,
    exit_code: Option<i32>,
)
    ensures
        run.phase == Phase::Running ==> log_entries(line_actions(run, stream, line, normalized))
            == seq![log_entry(stream, line)],
        run.phase != Phase::Running ==> log_entries(line_actions(run, stream, line, normalized))
            == Seq::<Seq<char>>::empty(),
        log_entries(begin_actions(run)) == Seq::<Seq<char>>::empty(),
        log_entries(exit_actions(run, success, exit_code)) == Seq::<Seq<char>>::empty(),
{
    reveal_with_fuel(log_entries, 4);
    let actions = line_actions(run, stream, line, normalized);
    if run.phase == Phase::Running {
        let logged = seq![
            ActionView::AppendLog(log_entry(stream, line)),
            ActionView::Notify(NoticeView::LogLine { mode: run.mode, stream, line }),
        ];
        assert(logged.drop_last() =~= seq![ActionView::AppendLog(log_entry(stream, line))]);
        assert(logged.drop_last().drop_last() =~= Seq::<ActionView>::empty());
        assert(log_entries(logged) =~= seq![log_entry(stream, line)]);
        if actions != logged {
            assert(actions.drop_last() =~= logged);
        }
    }
    let last = exit_actions(run, success, exit_code);
    if last.len() == 2 {
        assert(last.drop_last().drop_last() =~= Seq::<ActionView>::empty());
    }
}

/// A line as the run receives it: its stream, its text, and the lowercase
/// form of the text.
pub struct Delivered {
    pub stream: StreamTag,
    pub line: Seq<char>,
    pub normalized: Seq<char>,
}

/// The run after the lines `lines`, taken in order.
pub open spec fn after_lines(run: RunView, lines: Seq<Delivered>) -> RunView
    decreases lines.len(),
{
    if lines.len() == 0 {
        run
    } else {
        after_line(after_lines(run, lines.drop_last()), lines.last().normalized)
    }
}

/// Everything that the lines `lines` ask for, in order.
pub open spec fn actions_of_lines(run: RunView, lines: Seq<Delivered>) -> Seq<ActionView>
    decreases lines.len(),
{
    if lines.len() == 0 {
        seq![]
    } else {
        actions_of_lines(run, lines.drop_last()) + line_actions(
            after_lines(run, lines.drop_last()),
            lines.last().stream,
            lines.last().line,
            lines.last().normalized,
        )
    }
}

/// The log entries of two lists of actions, one after the other.
pub proof fn lemma_log_entries_concat(first: Seq<ActionView>, second: Seq<ActionView>)
    ensures
        log_entries(first + second) == log_entries(first) + log_entries(second),
    decreases second.len(),
{
    if second.len() == 0 {
        assert(first + second =~= first);
        assert(log_entries(first) + log_entries(second) =~= log_entries(first));
    } else {
        assert((first + second).drop_last() =~= first + second.drop_last());
        lemma_log_entries_concat(first, second.drop_last());
        assert(log_entries(first + second) =~= log_entries(first) + log_entries(second));
    }
}

/// The log follows the delivery: while a run is running, its log gets one
/// entry for each line that arrives, under the line's stream tag and in
/// the order of arrival, so the lines of each stream keep their order.
/// The stage index never moves back on the way.
pub proof fn lemma_log_follows_delivery(run: RunView, lines: Seq<Delivered>)
    requires
        run.phase == Phase::Running,
        valid_run(run),
    ensures
        log_entries(actions_of_lines(run, lines)) == lines.map_values(
            |d: Delivered| log_entry(d.stream, d.line),
        ),
        after_lines(run, lines).phase == Phase::Running,
        after_lines(run, lines).mode == run.mode,
        after_lines(run, lines).stage_index >= run.stage_index,
        valid_run(after_lines(run, lines)),
    decreases lines.len(),
{
    let entries = lines.map_values(|d: Delivered| log_entry(d.stream, d.line));
    if lines.len() == 0 {
        assert(log_entries(actions_of_lines(run, lines)) =~= entries);
    } else {
        let front = lines.drop_last();
        let last = lines.last();
        lemma_log_follows_delivery(run, front);
        let before = after_lines(run, front);
        lemma_stage_index_monotone(before, last.normalized, true, None);
        lemma_one_log_entry_per_line(before, last.stream, last.line, last.normalized, true, None);
        lemma_log_entries_concat(
            actions_of_lines(run, front),
            line_actions(before, last.stream, last.line, last.normalized),
        );
        assert(entries =~= front.map_values(|d: Delivered| log_entry(d.stream, d.line)).push(
            log_entry(last.stream, last.line),
        ));
    }
}

/// A run that is over stays as it is and asks for nothing more.
pub proof fn lemma_finished_run_is_silent(
    run: RunView,
    stream: StreamTag,
    line: Seq<char>,
    normalized: Seq<char>,
    success: bool,
    exit_code: Option<i32>,
)
    requires
        run.phase == Phase::Succeeded || run.phase == Phase::Failed,
    ensures
        begun(run) == run,
        after_line(run, normalized) == run,
        after_exit(run, success, exit_code) == run,
        begin_actions(run).len() == 0,
        line_actions(run, stream, line, normalized).len() == 0,
        exit_actions(run, success, exit_code).len() == 0,
{
}

/// The stage index of a valid run never moves back and stays in the stage
/// table, whatever happens to the run.
pub proof fn lemma_stage_index_monotone(
    run: RunView,
    normalized: Seq<char>,
    success: bool,
    exit_code: Option<i32>,
)
    requires
        valid_run(run),
    ensures
        begun(run).stage_index == run.stage_index,
        after_line(run, normalized).stage_index >= run.stage_index,
        valid_run(after_line(run, normalized)),
        after_exit(run, success, exit_code).stage_index >= run.stage_index,
        valid_run(after_exit(run, success, exit_code)),
{
    let stages = run.mode.spec_stage_sequence();
    let found = next_stage(normalized, run.stage_index as int, stages);
    lemma_next_stage_exists(normalized, run.stage_index as int, stages);
}

/// A run that succeeds ends at the last stage with its progress at 100,
/// whatever its lines announced; a run that fails keeps its stage.
pub proof fn lemma_exit_settles_progress(run: RunView, exit_code: Option<i32>)
    requires
        valid_run(run),
        run.phase == Phase::Running,
    ensures
        after_exit(run, true, exit_code).stage_index == run.mode.spec_stage_sequence().len() - 1,
        after_exit(run, true, exit_code).phase == Phase::Succeeded,
        exit_actions(run, true, exit_code)[0] matches ActionView::Notify(
            NoticeView::Progress { progress, .. },
        ) && percent_of(progress) == 100,
        outcome_of(after_exit(run, true, exit_code)) == Some(Ok::<(), Seq<char>>(())),
        after_exit(run, false, exit_code).stage_index == run.stage_index,
        after_exit(run, false, exit_code).phase == Phase::Failed,
        outcome_of(after_exit(run, false, exit_code)) == Some(
            Err::<(), Seq<char>>(exit_message(exit_code)),
        ),
{
    let count = run.mode.spec_stage_sequence().len();
    lemma_percent_formula((count - 1) as nat, count);
}

pub fn format_exit_message(exit_code: Option<i32>) -> (message: String)
    ensures
        message@ == exit_message(exit_code),
{
    let shown: i32 = match exit_code {
        Some(code) => code,
        None => -1,
    };
    let mut message = String::from_str("Pioneer exited with status ");
    push_optional_code(&mut message, Some(shown));
    message
}

impl View for RunState {
    type V = RunView;

    closed spec fn view(&self) -> RunView {
        RunView {
            mode: self.mode,
            stage_index: self.stage_index,
            phase: self.phase,
            exit_code: self.exit_code,
        }
    }
}

impl RunState {
    #[verifier::type_invariant]
    spec fn well_formed(self) -> bool {
        &&& stage_views(self.stages@) == self.mode.spec_stage_sequence()
        &&& self.stage_index < self.stages.len()
    }

    /// A run of `mode` that has not started: stage 0, nothing emitted.
    pub fn new(mode: RunMode) -> (run: RunState)
        ensures
            run@ == (RunView { mode, stage_index: 0, phase: Phase::Starting, exit_code: None }),
            valid_run(run@),
    {
        let stages = mode.stage_sequence();
        RunState { mode, stages, stage_index: 0, phase: Phase::Starting, exit_code: None }
    }

    pub fn mode(&self) -> (mode: RunMode)
        ensures
            mode == self@.mode,
    {
        self.mode
    }

    pub fn stage_index(&self) -> (index: usize)
        ensures
            index == self@.stage_index,
            valid_run(self@),
    {
        proof {
            use_type_invariant(self);
        }
        self.stage_index
    }

    pub fn phase(&self) -> (phase: Phase)
        ensures
            phase == self@.phase,
    {
        self.phase
    }

    pub fn exit_code(&self) -> (code: Option<i32>)
        ensures
            code == self@.exit_code,
    {
        self.exit_code
    }

    /// Whether the run is over.
    pub fn is_finished(&self) -> (finished: bool)
        ensures
            finished == (self@.phase == Phase::Succeeded || self@.phase == Phase::Failed),
    {
        match self.phase {
            Phase::Succeeded => true,
            Phase::Failed => true,
            _ => false,
        }
    }

    /// The progress notice of the current stage.
    pub fn stage_update(&self) -> (notice: Notice)
        ensures
            notice@ == progress_notice(
                self@.mode,
                self@.mode.spec_stage_sequence(),
                self@.stage_index as int,
            ),
    {
        proof {
            use_type_invariant(self);
        }
        let stage = &self.stages[self.stage_index];
        assert(stage@ == stage_views(self.stages@)[self.stage_index as int]);
        Notice::Progress {
            mode: self.mode,
            stage_key: String::from_str(stage.key),
            stage_label: String::from_str(stage.label),
            progress: stage_progress(self.stage_index, self.stages.len()),
        }
    }

    /// The tool was launched: the run is running, and the notifier learns
    /// the stage it starts in.
    pub fn begin(&mut self) -> (actions: Vec<Action>)
        ensures
            final(self)@ == begun(old(self)@),
            action_views(actions@) == begin_actions(old(self)@),
            valid_run(final(self)@),
    {
        proof {
            use_type_invariant(&*self);
        }
        let mut actions: Vec<Action> = Vec::new();
        match self.phase {
            Phase::Starting => {
                self.phase = Phase::Running;
                actions.push(Action::Notify(self.stage_update()));
            },
            _ => {},
        }
        assert(action_views(actions@) =~= begin_actions(old(self)@));
        actions
    }

    /// A line arrived whose lowercase form the caller already has.
    pub fn on_normalized_line(&mut self, stream: StreamTag, line: &str, normalized: &str) -> (actions:
        Vec<Action>)
        ensures
            final(self)@ == after_line(old(self)@, normalized@),
            action_views(actions@) == line_actions(old(self)@, stream, line@, normalized@),
            final(self)@.stage_index >= old(self)@.stage_index,
            valid_run(final(self)@),
    {
        proof {
            use_type_invariant(&*self);
        }
        let mut actions: Vec<Action> = Vec::new();
        match self.phase {
            Phase::Running => {
                actions.push(Action::AppendLog(format_log_entry(stream, line)));
                actions.push(
                    Action::Notify(
                        Notice::LogLine { mode: self.mode, stream, line: String::from_str(line) },
                    ),
                );
                let next = advance_normalized(
                    normalized,
                    self.stage_index,
                    self.stages.as_slice(),
                );
                if next > self.stage_index {
                    self.stage_index = next;
                    actions.push(Action::Notify(self.stage_update()));
                }
            },
            _ => {},
        }
        assert(action_views(actions@) =~= line_actions(old(self)@, stream, line@, normalized@));
        actions
    }

    /// A line arrived on `stream`.
    pub fn on_line(&mut self, stream: StreamTag, line: &str) -> (actions: Vec<Action>)
        ensures
            final(self)@ == after_line(old(self)@, lowercase_of(line@)),
            action_views(actions@) == line_actions(
                old(self)@,
                stream,
                line@,
                lowercase_of(line@),
            ),
            final(self)@.stage_index >= old(self)@.stage_index,
            valid_run(final(self)@),
    {
        let normalized = to_lowercase(line);
        self.on_normalized_line(stream, line, normalized.as_str())
    }

    /// Both streams have ended and the tool has exited.
    pub fn on_exit(&mut self, success: bool, exit_code: Option<i32>) -> (actions: Vec<Action>)
        ensures
            final(self)@ == after_exit(old(self)@, success, exit_code),
            action_views(actions@) == exit_actions(old(self)@, success, exit_code),
            final(self)@.stage_index >= old(self)@.stage_index,
            valid_run(final(self)@),
    {
        proof {
            use_type_invariant(&*self);
        }
        let mut actions: Vec<Action> = Vec::new();
        match self.phase {
            Phase::Running => {
                self.exit_code = exit_code;
                if success {
                    self.stage_index = self.stages.len() - 1;
                    self.phase = Phase::Succeeded;
                    actions.push(Action::Notify(self.stage_update()));
                    actions.push(
                        Action::Notify(
                            Notice::RunComplete {
                                mode: self.mode,
                                success: true,
                                exit_code,
                                message: None,
                            },
                        ),
                    );
                } else {
                    self.phase = Phase::Failed;
                    actions.push(
                        Action::Notify(
                            Notice::RunComplete {
                                mode: self.mode,
                                success: false,
                                exit_code,
                                message: Some(format_exit_message(exit_code)),
                            },
                        ),
                    );
                }
            },
            _ => {},
        }
        assert(action_views(actions@) =~= exit_actions(old(self)@, success, exit_code));
        actions
    }

    /// What awaits a caller that waited for the run.
    pub fn outcome(&self) -> (outcome: Option<Result<(), String>>)
        ensures
            match outcome {
                None => outcome_of(self@) is None,
                Some(Ok(_)) => outcome_of(self@) == Some(Ok::<(), Seq<char>>(())),
                Some(Err(message)) => outcome_of(self@) == Some(Err::<(), Seq<char>>(message@)),
            },
    {
        match self.phase {
            Phase::Succeeded => Some(Ok(())),
            Phase::Failed => Some(Err(format_exit_message(self.exit_code))),
            _ => None,
        }
    }
}

} // verus!
