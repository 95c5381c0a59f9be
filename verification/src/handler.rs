//! Classification and dispatch of editor notifications.

use rmpv::Value;
use vstd::prelude::*;

verus! {

/// The notification names the dispatcher acts on; every other name is
/// accepted as a no-op.
#[derive(Clone, Copy, Debug, PartialEq, Eq, Structural)]
pub enum EventKind {
    Redraw,
    SettingChanged,
    RegisterRightClick,
    UnregisterRightClick,
    Unknown,
}

/// How an event name is routed: by exact string match, in this order.
pub open spec fn spec_classify(name: Seq<char>) -> EventKind {
    if name == "redraw"@ {
        EventKind::Redraw
    } else if name == "setting_changed"@ {
        EventKind::SettingChanged
    } else if name == "neovide.register_right_click"@ {
        EventKind::RegisterRightClick
    } else if name == "neovide.unregister_right_click"@ {
        EventKind::UnregisterRightClick
    } else {
        EventKind::Unknown
    }
}

/// Classify one event name by exact string match.
pub fn classify(event_name: &String) -> (kind: EventKind)
    ensures
        kind == spec_classify(event_name@),
{
    if *event_name == "redraw".to_owned() {
        EventKind::Redraw
    } else if *event_name == "setting_changed".to_owned() {
        EventKind::SettingChanged
    } else if *event_name == "neovide.register_right_click".to_owned() {
        EventKind::RegisterRightClick
    } else if *event_name == "neovide.unregister_right_click".to_owned() {
        EventKind::UnregisterRightClick
    } else {
        EventKind::Unknown
    }
}

/// One sub-step of a shell-integration branch. The two unregister variants
/// run the same routine but report failure with opposite polarity and with
/// different messages, exactly as the branches do.
#[derive(Clone, Copy, Debug, PartialEq, Eq, Structural)]
pub enum ShellStep {
    /// The unregister pass that precedes re-registration; a `true` return is
    /// treated as a failure worth reporting.
    UnregisterBeforeRegister,
    /// Registration of the directory context-menu entry; a `false` return is
    /// a failure.
    RegisterDirectory,
    /// Registration of the file context-menu entry; a `false` return is a
    /// failure.
    RegisterFile,
    /// The stand-alone unregister branch; a `false` return is a failure.
    UnregisterOnly,
}

/// The three zero-argument shell-integration routines of the platform layer.
#[derive(Clone, Copy, Debug, PartialEq, Eq, Structural)]
pub enum ShellRoutine {
    Unregister,
    RegisterDirectory,
    RegisterFile,
}

/// Which routine a step invokes.
pub open spec fn spec_routine(step: ShellStep) -> ShellRoutine {
    match step {
        ShellStep::UnregisterBeforeRegister => ShellRoutine::Unregister,
        ShellStep::RegisterDirectory => ShellRoutine::RegisterDirectory,
        ShellStep::RegisterFile => ShellRoutine::RegisterFile,
        ShellStep::UnregisterOnly => ShellRoutine::Unregister,
    }
}

/// Whether a step's boolean return counts as a failure. The polarity of the
/// unregister routine differs between the two branches that run it.
pub open spec fn spec_step_failed(step: ShellStep, returned: bool) -> bool {
    match step {
        ShellStep::UnregisterBeforeRegister => returned,
        ShellStep::RegisterDirectory => !returned,
        ShellStep::RegisterFile => !returned,
        ShellStep::UnregisterOnly => !returned,
    }
}

/// The operator-directed message reported when a step fails.
pub open spec fn spec_error_hint(step: ShellStep) -> Seq<char> {
    match step {
        ShellStep::UnregisterBeforeRegister => "Setup of Windows Registry failed during unregister. Try running as Admin?"@,
        ShellStep::RegisterDirectory => "Setup of Windows Registry failed during directory registration. Try running as Admin?"@,
        ShellStep::RegisterFile => "Setup of Windows Registry failed during file registration. Try running as Admin?"@,
        ShellStep::UnregisterOnly => "Removal of Windows Registry failed, probably no Admin"@,
    }
}

impl ShellStep {
    /// The routine this step invokes.
    pub fn routine(&self) -> (r: ShellRoutine)
        ensures
            r == spec_routine(*self),
    {
        match *self {
            ShellStep::UnregisterBeforeRegister => ShellRoutine::Unregister,
            ShellStep::RegisterDirectory => ShellRoutine::RegisterDirectory,
            ShellStep::RegisterFile => ShellRoutine::RegisterFile,
            ShellStep::UnregisterOnly => ShellRoutine::Unregister,
        }
    }

    /// Whether the routine's return value counts as a failure of this step.
    pub fn failed(&self, returned: bool) -> (f: bool)
        ensures
            f == spec_step_failed(*self, returned),
    {
        match *self {
            ShellStep::UnregisterBeforeRegister => returned,
            ShellStep::RegisterDirectory => !returned,
            ShellStep::RegisterFile => !returned,
            ShellStep::UnregisterOnly => !returned,
        }
    }

    /// The message to report when this step fails.
    pub fn error_hint(&self) -> (hint: String)
        ensures
            hint@ == spec_error_hint(*self),
    {
        match *self {
            ShellStep::UnregisterBeforeRegister => "Setup of Windows Registry failed during unregister. Try running as Admin?".to_owned(),
            ShellStep::RegisterDirectory => "Setup of Windows Registry failed during directory registration. Try running as Admin?".to_owned(),
            ShellStep::RegisterFile => "Setup of Windows Registry failed during file registration. Try running as Admin?".to_owned(),
            ShellStep::UnregisterOnly => "Removal of Windows Registry failed, probably no Admin".to_owned(),
        }
    }
}

/// The shell-integration steps an event runs: three on the register branch,
/// one on the unregister branch, none at all off the designated operating
/// system or for the other events.
pub open spec fn spec_shell_steps(kind: EventKind, on_designated_os: bool) -> Seq<ShellStep> {
    if on_designated_os {
        match kind {
            EventKind::RegisterRightClick => seq![
                ShellStep::UnregisterBeforeRegister,
                ShellStep::RegisterDirectory,
                ShellStep::RegisterFile,
            ],
            EventKind::UnregisterRightClick => seq![ShellStep::UnregisterOnly],
            _ => Seq::empty(),
        }
    } else {
        Seq::empty()
    }
}

/// Stage the shell-integration steps for one event.
pub fn shell_steps(kind: EventKind, on_designated_os: bool) -> (steps: Vec<ShellStep>)
    ensures
        steps@ == spec_shell_steps(kind, on_designated_os),
{
    let mut steps: Vec<ShellStep> = Vec::new();
    if on_designated_os {
        match kind {
            EventKind::RegisterRightClick => {
                steps.push(ShellStep::UnregisterBeforeRegister);
                steps.push(ShellStep::RegisterDirectory);
                steps.push(ShellStep::RegisterFile);
            },
            EventKind::UnregisterRightClick => {
                steps.push(ShellStep::UnregisterOnly);
            },
            _ => {},
        }
    }
    proof {
        assert(steps@ =~= spec_shell_steps(kind, on_designated_os));
    }
    steps
}

/// Where one notification's arguments go. Arguments are moved in verbatim:
/// the dispatcher neither inspects nor reorders them.
pub enum Routed {
    /// Hand the arguments to the redraw event decoder.
    Redraw(Vec<Value>),
    /// Hand the arguments to the settings store's change handler.
    SettingChanged(Vec<Value>),
    /// Run these shell-integration steps in order, reporting each failure.
    Shell(Vec<ShellStep>),
    /// An unrecognized name: nothing to do.
    Ignored,
}

/// Everything one notification asks of the embedding process: exactly one
/// trace entry naming the event, then the routed work.
pub struct Plan {
    /// The event name, to appear in the single trace entry that precedes the
    /// dispatched work.
    pub trace_event: String,
    /// The staged work itself.
    pub routed: Routed,
}

/// The dispatcher handle registered with the RPC session. It holds no state;
/// a clone is interchangeable with the original.
#[derive(Clone, Copy, PartialEq, Eq, Structural)]
pub struct NeovimHandler();

impl NeovimHandler {
    /// Stage the handling of one notification: one trace entry naming the
    /// event, then the work selected by exact match on the event name.
    /// Arguments reach the selected collaborator exactly as given; an
    /// unrecognized name stages nothing.
    pub fn plan_notify(
        &self,
        event_name: String,
        arguments: Vec<Value>,
        on_designated_os: bool,
    ) -> (p: Plan)
        ensures
            p.trace_event@ == event_name@,
            match spec_classify(event_name@) {
                EventKind::Redraw => p.routed matches Routed::Redraw(a) && a@ == arguments@,
                EventKind::SettingChanged => p.routed matches Routed::SettingChanged(a) && a@
                    == arguments@,
                EventKind::RegisterRightClick => p.routed matches Routed::Shell(s) && s@
                    == spec_shell_steps(EventKind::RegisterRightClick, on_designated_os),
                EventKind::UnregisterRightClick => p.routed matches Routed::Shell(s) && s@
                    == spec_shell_steps(EventKind::UnregisterRightClick, on_designated_os),
                EventKind::Unknown => p.routed is Ignored,
            },
    {
        let kind = classify(&event_name);
        let routed = match kind {
            EventKind::Redraw => Routed::Redraw(arguments),
            EventKind::SettingChanged => Routed::SettingChanged(arguments),
            EventKind::RegisterRightClick => Routed::Shell(shell_steps(kind, on_designated_os)),
            EventKind::UnregisterRightClick => Routed::Shell(shell_steps(kind, on_designated_os)),
            EventKind::Unknown => Routed::Ignored,
        };
        Plan { trace_event: event_name, routed }
    }
}

/// One observable effect of handling a notification, in the order the
/// embedding process performs them.
#[derive(Clone, Copy, Debug, PartialEq, Eq, Structural)]
pub enum Event {
    /// The trace entry naming the event.
    Trace,
    /// The redraw decoder invoked with the forwarded arguments.
    RedrawCall,
    /// The settings store's change handler invoked with the forwarded
    /// arguments.
    SettingsCall,
    /// A shell-integration routine invoked.
    ShellCall(ShellRoutine),
    /// An error entry reported for a failed shell step.
    ErrorLog(ShellStep),
}

/// The effects of one shell step given what its routine returned: the call,
/// then an error entry exactly when the step failed.
pub open spec fn spec_step_events(step: ShellStep, returned: bool) -> Seq<Event> {
    seq![Event::ShellCall(spec_routine(step))] + if spec_step_failed(step, returned) {
        seq![Event::ErrorLog(step)]
    } else {
        Seq::empty()
    }
}

/// The effects of a run of shell steps, each paired with what its routine
/// returned. A failure never stops the later steps.
pub open spec fn spec_shell_events(steps: Seq<ShellStep>, results: Seq<bool>) -> Seq<Event>
    decreases steps.len(),
{
    if steps.len() == 0 {
        Seq::empty()
    } else {
        spec_step_events(steps[0], results[0]) + spec_shell_events(steps.skip(1), results.skip(1))
    }
}

/// The complete ordered effects of one notification: one trace entry first,
/// then the routed work. `results` gives, in order, what each invoked shell
/// routine returned; for the other branches it is irrelevant.
pub open spec fn spec_transcript(name: Seq<char>, on_designated_os: bool, results: Seq<bool>) -> Seq<
    Event,
> {
    seq![Event::Trace] + match spec_classify(name) {
        EventKind::Redraw => seq![Event::RedrawCall],
        EventKind::SettingChanged => seq![Event::SettingsCall],
        EventKind::RegisterRightClick => spec_shell_events(
            spec_shell_steps(EventKind::RegisterRightClick, on_designated_os),
            results,
        ),
        EventKind::UnregisterRightClick => spec_shell_events(
            spec_shell_steps(EventKind::UnregisterRightClick, on_designated_os),
            results,
        ),
        EventKind::Unknown => Seq::empty(),
    }
}

/// Appending one step to a run appends its effects.
proof fn lemma_shell_events_snoc(steps: Seq<ShellStep>, results: Seq<bool>, s: ShellStep, r: bool)
    requires
        steps.len() == results.len(),
    ensures
        spec_shell_events(steps.push(s), results.push(r)) == spec_shell_events(steps, results)
            + spec_step_events(s, r),
    decreases steps.len(),
{
    reveal_with_fuel(spec_shell_events, 3);
    if steps.len() == 0 {
        assert(steps.push(s).skip(1) =~= Seq::<ShellStep>::empty());
        assert(results.push(r).skip(1) =~= Seq::<bool>::empty());
        assert(steps.push(s)[0] == s);
        assert(results.push(r)[0] == r);
        assert(spec_shell_events(steps.push(s), results.push(r)) =~= spec_shell_events(
            steps,
            results,
        ) + spec_step_events(s, r));
    } else {
        lemma_shell_events_snoc(steps.skip(1), results.skip(1), s, r);
        assert(steps.push(s).skip(1) =~= steps.skip(1).push(s));
        assert(results.push(r).skip(1) =~= results.skip(1).push(r));
        assert(steps.push(s)[0] == steps[0]);
        assert(results.push(r)[0] == results[0]);
        assert(spec_shell_events(steps.push(s), results.push(r)) == spec_step_events(
            steps[0],
            results[0],
        ) + spec_shell_events(steps.skip(1).push(s), results.skip(1).push(r)));
        assert(spec_shell_events(steps.push(s), results.push(r)) =~= spec_shell_events(
            steps,
            results,
        ) + spec_step_events(s, r));
    }
}

/// Replay the complete, ordered effects of one notification from the event
/// name, the platform, and what each invoked shell routine returned (one
/// entry per invoked routine, in invocation order).
pub fn transcript(event_name: &String, on_designated_os: bool, shell_results: &Vec<bool>) -> (t: Vec<
    Event,
>)
    requires
        shell_results@.len() == spec_shell_steps(
            spec_classify(event_name@),
            on_designated_os,
        ).len(),
    ensures
        t@ == spec_transcript(event_name@, on_designated_os, shell_results@),
{
    let mut t: Vec<Event> = Vec::new();
    t.push(Event::Trace);
    let kind = classify(event_name);
    match kind {
        EventKind::Redraw => {
            t.push(Event::RedrawCall);
        },
        EventKind::SettingChanged => {
            t.push(Event::SettingsCall);
        },
        EventKind::RegisterRightClick | EventKind::UnregisterRightClick => {
            let steps = shell_steps(kind, on_designated_os);
            let mut i: usize = 0;
            while i < steps.len()
                invariant
                    i <= steps@.len(),
                    steps@ == spec_shell_steps(kind, on_designated_os),
                    shell_results@.len() == steps@.len(),
                    t@ == seq![Event::Trace] + spec_shell_events(
                        steps@.take(i as int),
                        shell_results@.take(i as int),
                    ),
                decreases steps@.len() - i,
            {
                let step = steps[i];
                t.push(Event::ShellCall(step.routine()));
                if step.failed(shell_results[i]) {
                    t.push(Event::ErrorLog(step));
                }
                proof {
                    lemma_shell_events_snoc(
                        steps@.take(i as int),
                        shell_results@.take(i as int),
                        steps@[i as int],
                        shell_results@[i as int],
                    );
                    assert(steps@.take(i + 1) =~= steps@.take(i as int).push(steps@[i as int]));
                    assert(shell_results@.take(i + 1) =~= shell_results@.take(i as int).push(
                        shell_results@[i as int],
                    ));
                    assert(t@ =~= seq![Event::Trace] + spec_shell_events(
                        steps@.take(i + 1),
                        shell_results@.take(i + 1),
                    ));
                }
                i += 1;
            }
            proof {
                assert(steps@.take(steps@.len() as int) =~= steps@);
                assert(shell_results@.take(steps@.len() as int) =~= shell_results@);
            }
        },
        EventKind::Unknown => {},
    }
    proof {
        assert(t@ =~= spec_transcript(event_name@, on_designated_os, shell_results@));
    }
    t
}

/// Whether an effect invokes a collaborator.
pub open spec fn spec_is_call(e: Event) -> bool {
    e is RedrawCall || e is SettingsCall || e is ShellCall
}

/// The collaborator invocations of a transcript, in order.
pub open spec fn spec_calls_of(t: Seq<Event>) -> Seq<Event>
    decreases t.len(),
{
    if t.len() == 0 {
        Seq::empty()
    } else {
        (if spec_is_call(t[0]) {
            seq![t[0]]
        } else {
            Seq::empty()
        }) + spec_calls_of(t.skip(1))
    }
}

/// The error entries of a transcript, in order.
pub open spec fn spec_errors_of(t: Seq<Event>) -> Seq<Event>
    decreases t.len(),
{
    if t.len() == 0 {
        Seq::empty()
    } else {
        (if t[0] is ErrorLog {
            seq![t[0]]
        } else {
            Seq::empty()
        }) + spec_errors_of(t.skip(1))
    }
}

/// Both collectors distribute over concatenation.
proof fn lemma_collectors_add(a: Seq<Event>, b: Seq<Event>)
    ensures
        spec_calls_of(a + b) == spec_calls_of(a) + spec_calls_of(b),
        spec_errors_of(a + b) == spec_errors_of(a) + spec_errors_of(b),
    decreases a.len(),
{
    reveal_with_fuel(spec_calls_of, 3);
    reveal_with_fuel(spec_errors_of, 3);
    if a.len() == 0 {
        assert(a + b =~= b);
        assert(spec_calls_of(a + b) =~= spec_calls_of(a) + spec_calls_of(b));
        assert(spec_errors_of(a + b) =~= spec_errors_of(a) + spec_errors_of(b));
    } else {
        lemma_collectors_add(a.skip(1), b);
        assert((a + b).skip(1) =~= a.skip(1) + b);
        assert((a + b)[0] == a[0]);
        assert(spec_calls_of(a + b) =~= spec_calls_of(a) + spec_calls_of(b));
        assert(spec_errors_of(a + b) =~= spec_errors_of(a) + spec_errors_of(b));
    }
}

/// One step's effects contain exactly one collaborator invocation, its own
/// routine, and an error entry exactly when the step failed.
proof fn lemma_step_events_collected(s: ShellStep, r: bool)
    ensures
        spec_calls_of(spec_step_events(s, r)) == seq![Event::ShellCall(spec_routine(s))],
        spec_errors_of(spec_step_events(s, r)) == if spec_step_failed(s, r) {
            seq![Event::ErrorLog(s)]
        } else {
            Seq::<Event>::empty()
        },
{
    reveal_with_fuel(spec_calls_of, 4);
    reveal_with_fuel(spec_errors_of, 4);
    if spec_step_failed(s, r) {
        assert(spec_step_events(s, r) =~= seq![
            Event::ShellCall(spec_routine(s)),
            Event::ErrorLog(s),
        ]);
        assert(spec_calls_of(spec_step_events(s, r)) =~= seq![Event::ShellCall(spec_routine(s))]);
        assert(spec_errors_of(spec_step_events(s, r)) =~= seq![Event::ErrorLog(s)]);
    } else {
        assert(spec_step_events(s, r) =~= seq![Event::ShellCall(spec_routine(s))]);
        assert(spec_calls_of(spec_step_events(s, r)) =~= seq![Event::ShellCall(spec_routine(s))]);
        assert(spec_errors_of(spec_step_events(s, r)) =~= Seq::<Event>::empty());
    }
}

/// The invocations a run of shell steps makes: one per step, in step order.
pub open spec fn spec_routine_calls(steps: Seq<ShellStep>) -> Seq<Event>
    decreases steps.len(),
{
    if steps.len() == 0 {
        Seq::empty()
    } else {
        seq![Event::ShellCall(spec_routine(steps[0]))] + spec_routine_calls(steps.skip(1))
    }
}

/// The failures a run of shell steps reports: one entry per failed step, in
/// step order.
pub open spec fn spec_failure_logs(steps: Seq<ShellStep>, results: Seq<bool>) -> Seq<Event>
    decreases steps.len(),
{
    if steps.len() == 0 {
        Seq::empty()
    } else {
        (if spec_step_failed(steps[0], results[0]) {
            seq![Event::ErrorLog(steps[0])]
        } else {
            Seq::empty()
        }) + spec_failure_logs(steps.skip(1), results.skip(1))
    }
}

/// A run of shell steps invokes exactly its steps' routines, in step order,
/// whatever each routine returns; and it reports exactly the failed steps,
/// in step order.
pub proof fn lemma_shell_run_collected(steps: Seq<ShellStep>, results: Seq<bool>)
    ensures
        spec_calls_of(spec_shell_events(steps, results)) == spec_routine_calls(steps),
        spec_errors_of(spec_shell_events(steps, results)) == spec_failure_logs(steps, results),
    decreases steps.len(),
{
    if steps.len() == 0 {
        assert(spec_calls_of(spec_shell_events(steps, results)) =~= spec_routine_calls(steps));
        assert(spec_errors_of(spec_shell_events(steps, results)) =~= spec_failure_logs(
            steps,
            results,
        ));
    } else {
        lemma_shell_run_collected(steps.skip(1), results.skip(1));
        lemma_collectors_add(
            spec_step_events(steps[0], results[0]),
            spec_shell_events(steps.skip(1), results.skip(1)),
        );
        lemma_step_events_collected(steps[0], results[0]);
        assert(spec_calls_of(spec_shell_events(steps, results)) =~= spec_routine_calls(steps));
        assert(spec_errors_of(spec_shell_events(steps, results)) =~= spec_failure_logs(
            steps,
            results,
        ));
    }
}

/// No effect of a run of shell steps is a trace entry.
proof fn lemma_shell_events_no_trace(steps: Seq<ShellStep>, results: Seq<bool>)
    ensures
        forall|i: int|
            0 <= i < spec_shell_events(steps, results).len() ==> !((#[trigger] spec_shell_events(
                steps,
                results,
            )[i]) is Trace),
    decreases steps.len(),
{
    if steps.len() != 0 {
        lemma_shell_events_no_trace(steps.skip(1), results.skip(1));
    }
}

/// Law: a notification whose name is not recognized invokes no collaborator
/// and reports no error; its whole effect is the single trace entry.
pub proof fn lemma_unrecognized_event_silent(
    name: Seq<char>,
    on_designated_os: bool,
    results: Seq<bool>,
)
    requires
        spec_classify(name) is Unknown,
    ensures
        spec_transcript(name, on_designated_os, results) == seq![Event::Trace],
        spec_calls_of(spec_transcript(name, on_designated_os, results)) == Seq::<Event>::empty(),
        spec_errors_of(spec_transcript(name, on_designated_os, results)) == Seq::<Event>::empty(),
{
    reveal_with_fuel(spec_calls_of, 3);
    reveal_with_fuel(spec_errors_of, 3);
    let t = spec_transcript(name, on_designated_os, results);
    assert(t =~= seq![Event::Trace]);
    assert(t.skip(1) =~= Seq::<Event>::empty());
    assert(spec_calls_of(t) =~= Seq::<Event>::empty());
    assert(spec_errors_of(t) =~= Seq::<Event>::empty());
}

/// Law: every notification's transcript begins with a trace entry and holds
/// no other: exactly one trace entry, emitted before all dispatched work.
pub proof fn lemma_one_trace_entry_first(
    name: Seq<char>,
    on_designated_os: bool,
    results: Seq<bool>,
)
    ensures
        spec_transcript(name, on_designated_os, results).len() >= 1,
        spec_transcript(name, on_designated_os, results)[0] is Trace,
        forall|i: int|
            1 <= i < spec_transcript(name, on_designated_os, results).len() ==> !((
            #[trigger] spec_transcript(name, on_designated_os, results)[i]) is Trace),
{
    let t = spec_transcript(name, on_designated_os, results);
    match spec_classify(name) {
        EventKind::RegisterRightClick => {
            lemma_shell_events_no_trace(
                spec_shell_steps(EventKind::RegisterRightClick, on_designated_os),
                results,
            );
        },
        EventKind::UnregisterRightClick => {
            lemma_shell_events_no_trace(
                spec_shell_steps(EventKind::UnregisterRightClick, on_designated_os),
                results,
            );
        },
        _ => {},
    }
}

/// Law: off the designated operating system the two shell-integration
/// branches invoke no collaborator and report nothing; only the trace entry
/// remains.
pub proof fn lemma_inactive_os_silent(name: Seq<char>, results: Seq<bool>)
    requires
        spec_classify(name) is RegisterRightClick || spec_classify(name) is UnregisterRightClick,
    ensures
        spec_transcript(name, false, results) == seq![Event::Trace],
        spec_calls_of(spec_transcript(name, false, results)) == Seq::<Event>::empty(),
        spec_errors_of(spec_transcript(name, false, results)) == Seq::<Event>::empty(),
{
    reveal_with_fuel(spec_calls_of, 3);
    reveal_with_fuel(spec_errors_of, 3);
    let t = spec_transcript(name, false, results);
    assert(t =~= seq![Event::Trace]);
    assert(t.skip(1) =~= Seq::<Event>::empty());
    assert(spec_calls_of(t) =~= Seq::<Event>::empty());
    assert(spec_errors_of(t) =~= Seq::<Event>::empty());
}

/// Law: on the designated operating system the register branch invokes the
/// three shell routines in the fixed order unregister, register-directory,
/// register-file, whatever each of them returns.
pub proof fn lemma_register_branch_order(name: Seq<char>, results: Seq<bool>)
    requires
        spec_classify(name) is RegisterRightClick,
    ensures
        spec_calls_of(spec_transcript(name, true, results)) == seq![
            Event::ShellCall(ShellRoutine::Unregister),
            Event::ShellCall(ShellRoutine::RegisterDirectory),
            Event::ShellCall(ShellRoutine::RegisterFile),
        ],
{
    reveal_with_fuel(spec_routine_calls, 5);
    reveal_with_fuel(spec_calls_of, 3);
    let steps = spec_shell_steps(EventKind::RegisterRightClick, true);
    let e = spec_shell_events(steps, results);
    lemma_collectors_add(seq![Event::Trace], e);
    lemma_shell_run_collected(steps, results);
    assert(spec_transcript(name, true, results) == seq![Event::Trace] + e);
    assert(spec_calls_of(seq![Event::Trace]) =~= Seq::<Event>::empty());
    assert(steps.skip(1) =~= seq![ShellStep::RegisterDirectory, ShellStep::RegisterFile]);
    assert(steps.skip(1).skip(1) =~= seq![ShellStep::RegisterFile]);
    assert(steps.skip(1).skip(1).skip(1) =~= Seq::<ShellStep>::empty());
    assert(spec_routine_calls(steps) =~= seq![
        Event::ShellCall(ShellRoutine::Unregister),
        Event::ShellCall(ShellRoutine::RegisterDirectory),
        Event::ShellCall(ShellRoutine::RegisterFile),
    ]);
    assert(spec_calls_of(spec_transcript(name, true, results)) =~= seq![
        Event::ShellCall(ShellRoutine::Unregister),
        Event::ShellCall(ShellRoutine::RegisterDirectory),
        Event::ShellCall(ShellRoutine::RegisterFile),
    ]);
}

/// Law: the register branch reports exactly the steps that failed, in step
/// order: the unregister pass when its routine returned true, each
/// registration when its routine returned false. No failure stops a later
/// step.
pub proof fn lemma_register_branch_reports(name: Seq<char>, results: Seq<bool>)
    requires
        spec_classify(name) is RegisterRightClick,
        results.len() == 3,
    ensures
        spec_errors_of(spec_transcript(name, true, results)) == (if results[0] {
            seq![Event::ErrorLog(ShellStep::UnregisterBeforeRegister)]
        } else {
            Seq::<Event>::empty()
        }) + (if !results[1] {
            seq![Event::ErrorLog(ShellStep::RegisterDirectory)]
        } else {
            Seq::<Event>::empty()
        }) + (if !results[2] {
            seq![Event::ErrorLog(ShellStep::RegisterFile)]
        } else {
            Seq::<Event>::empty()
        }),
{
    reveal_with_fuel(spec_failure_logs, 5);
    reveal_with_fuel(spec_errors_of, 3);
    let steps = spec_shell_steps(EventKind::RegisterRightClick, true);
    let e = spec_shell_events(steps, results);
    lemma_collectors_add(seq![Event::Trace], e);
    lemma_shell_run_collected(steps, results);
    assert(spec_transcript(name, true, results) == seq![Event::Trace] + e);
    assert(spec_errors_of(seq![Event::Trace]) =~= Seq::<Event>::empty());
    assert(steps.skip(1) =~= seq![ShellStep::RegisterDirectory, ShellStep::RegisterFile]);
    assert(steps.skip(1).skip(1) =~= seq![ShellStep::RegisterFile]);
    assert(steps.skip(1).skip(1).skip(1) =~= Seq::<ShellStep>::empty());
    assert(results.skip(1)[0] == results[1]);
    assert(results.skip(1).skip(1)[0] == results[2]);
    assert(spec_errors_of(spec_transcript(name, true, results)) =~= (if results[0] {
        seq![Event::ErrorLog(ShellStep::UnregisterBeforeRegister)]
    } else {
        Seq::<Event>::empty()
    }) + (if !results[1] {
        seq![Event::ErrorLog(ShellStep::RegisterDirectory)]
    } else {
        Seq::<Event>::empty()
    }) + (if !results[2] {
        seq![Event::ErrorLog(ShellStep::RegisterFile)]
    } else {
        Seq::<Event>::empty()
    }));
}

/// Law: the stand-alone unregister branch invokes the unregister routine
/// once and reports an error exactly when that routine returned false.
pub proof fn lemma_unregister_branch(name: Seq<char>, results: Seq<bool>)
    requires
        spec_classify(name) is UnregisterRightClick,
        results.len() == 1,
    ensures
        spec_calls_of(spec_transcript(name, true, results)) == seq![
            Event::ShellCall(ShellRoutine::Unregister),
        ],
        spec_errors_of(spec_transcript(name, true, results)) == if !results[0] {
            seq![Event::ErrorLog(ShellStep::UnregisterOnly)]
        } else {
            Seq::<Event>::empty()
        },
{
    reveal_with_fuel(spec_routine_calls, 3);
    reveal_with_fuel(spec_failure_logs, 3);
    reveal_with_fuel(spec_calls_of, 3);
    reveal_with_fuel(spec_errors_of, 3);
    let steps = spec_shell_steps(EventKind::UnregisterRightClick, true);
    let e = spec_shell_events(steps, results);
    lemma_collectors_add(seq![Event::Trace], e);
    lemma_shell_run_collected(steps, results);
    assert(spec_transcript(name, true, results) == seq![Event::Trace] + e);
    assert(spec_calls_of(seq![Event::Trace]) =~= Seq::<Event>::empty());
    assert(spec_errors_of(seq![Event::Trace]) =~= Seq::<Event>::empty());
    assert(steps.skip(1) =~= Seq::<ShellStep>::empty());
    assert(spec_routine_calls(steps) =~= seq![Event::ShellCall(ShellRoutine::Unregister)]);
    assert(spec_calls_of(spec_transcript(name, true, results)) =~= seq![
        Event::ShellCall(ShellRoutine::Unregister),
    ]);
    assert(spec_errors_of(spec_transcript(name, true, results)) =~= if !results[0] {
        seq![Event::ErrorLog(ShellStep::UnregisterOnly)]
    } else {
        Seq::<Event>::empty()
    });
}

} // verus!
