//! How the supervisors of the shortcut listeners go about their work: what a turn does, and when
//! the next one comes.

use vstd::prelude::*;

use crate::hotkey_setup::{ComboPlan, ListenerPlan};
use crate::platform::TargetOs;

verus! {

/// When the next turn comes.
#[derive(Debug, Clone, Copy, PartialEq, Eq, Structural)]
pub enum Pause {
    /// Never: the supervisor is done.
    Done,
    /// After so many seconds.
    Seconds(u64),
}

/// The supervisors, one for each listener.
#[derive(Debug, Clone, Copy, PartialEq, Eq, Structural)]
pub enum SupervisorKind {
    Main,
    Qa,
    SelectionPolish,
    SideAware,
    Combination,
    Translation,
    Action,
    StylePacks,
}

/// How an attempt to register ended.
#[derive(Debug, Clone, Copy, PartialEq, Eq, Structural)]
pub enum Registration {
    Installed,
    Refused,
    /// The main thread did not answer in time.
    TimedOut,
    /// The main thread cannot be reached yet.
    NoMainThread,
    /// The input method plugin that the system listens through does not answer.
    NoPlugin,
}

/// What follows an attempt.
#[derive(Debug, Clone, Copy, PartialEq, Eq, Structural)]
pub struct AfterAttempt {
    /// The failed attempts in a row.
    pub attempts: u32,
    /// Whether the failure goes to the log.
    pub log: bool,
    pub pause: Pause,
}

/// Whether the failure number `attempts` goes to the log: the first three do, then every tenth.
pub open spec fn is_logged(attempts: nat) -> bool {
    attempts <= 3 || attempts % 10 == 0
}

/// What follows once a listener is installed. Some supervisors are then done, some look again, and
/// the one of the style packs keeps watching.
pub open spec fn pause_after_success(kind: SupervisorKind) -> Pause {
    match kind {
        SupervisorKind::Main | SupervisorKind::SelectionPolish | SupervisorKind::SideAware
        | SupervisorKind::Combination => Pause::Done,
        SupervisorKind::Qa | SupervisorKind::Translation | SupervisorKind::Action => Pause::Seconds(
            0,
        ),
        SupervisorKind::StylePacks => Pause::Seconds(5),
    }
}

/// A main thread that cannot be reached is a failure like any other to the supervisors that hand
/// their whole attempt to it. The others wait for it, and count nothing.
pub open spec fn counts_missing_main_thread(kind: SupervisorKind) -> bool {
    kind is SelectionPolish || kind is StylePacks
}

/// What follows an attempt that ended as `outcome`, after `attempts` failures.
pub open spec fn after(kind: SupervisorKind, attempts: u32, outcome: Registration) -> AfterAttempt {
    match outcome {
        Registration::Installed => AfterAttempt {
            attempts: 0,
            log: false,
            pause: pause_after_success(kind),
        },
        Registration::NoMainThread => if counts_missing_main_thread(kind) {
            AfterAttempt {
                attempts: (attempts + 1) as u32,
                log: is_logged((attempts + 1) as nat),
                pause: Pause::Seconds(3),
            }
        } else {
            AfterAttempt { attempts, log: false, pause: Pause::Seconds(1) }
        },
        Registration::NoPlugin => AfterAttempt {
            attempts: (attempts + 1) as u32,
            log: true,
            pause: Pause::Seconds(3),
        },
        Registration::Refused => AfterAttempt {
            attempts: (attempts + 1) as u32,
            log: is_logged((attempts + 1) as nat),
            pause: Pause::Seconds(3),
        },
        Registration::TimedOut => AfterAttempt {
            attempts: (attempts + 1) as u32,
            log: is_logged((attempts + 1) as nat) && !(kind is Translation),
            pause: Pause::Seconds(3),
        },
    }
}

pub fn attempt_is_logged(attempts: u32) -> (r: bool)
    ensures
        r == is_logged(attempts as nat),
{
    attempts <= 3 || attempts % 10 == 0
}

/// What follows an attempt that ended as `outcome`, after `attempts` failures in a row.
pub fn after_attempt(kind: SupervisorKind, attempts: u32, outcome: Registration) -> (r: AfterAttempt)
    requires
        outcome is Refused || outcome is TimedOut || outcome is NoPlugin || (outcome is NoMainThread
            && counts_missing_main_thread(kind)) ==> attempts < u32::MAX,
    ensures
        r == after(kind, attempts, outcome),
{
    match outcome {
        Registration::Installed => AfterAttempt {
            attempts: 0,
            log: false,
            pause: match kind {
                SupervisorKind::Main | SupervisorKind::SelectionPolish | SupervisorKind::SideAware
                | SupervisorKind::Combination => Pause::Done,
                SupervisorKind::Qa | SupervisorKind::Translation | SupervisorKind::Action =>
                    Pause::Seconds(0),
                SupervisorKind::StylePacks => Pause::Seconds(5),
            },
        },
        Registration::NoMainThread => match kind {
            SupervisorKind::SelectionPolish | SupervisorKind::StylePacks => AfterAttempt {
                attempts: attempts + 1,
                log: attempt_is_logged(attempts + 1),
                pause: Pause::Seconds(3),
            },
            _ => AfterAttempt { attempts, log: false, pause: Pause::Seconds(1) },
        },
        Registration::NoPlugin => AfterAttempt {
            attempts: attempts + 1,
            log: true,
            pause: Pause::Seconds(3),
        },
        Registration::Refused => AfterAttempt {
            attempts: attempts + 1,
            log: attempt_is_logged(attempts + 1),
            pause: Pause::Seconds(3),
        },
        Registration::TimedOut => AfterAttempt {
            attempts: attempts + 1,
            log: attempt_is_logged(attempts + 1) && kind != SupervisorKind::Translation,
            pause: Pause::Seconds(3),
        },
    }
}

/// A turn of the supervisor of the main listener.
#[derive(Debug, Clone, Copy, PartialEq, Eq, Structural)]
pub enum MainTurn {
    Stop,
    /// The input method plugin does not answer: that counts as an attempt, and is looked at again.
    AwaitPlugin,
    Install,
}

/// `plugin_missing` tells that the system listens through an input method plugin which does not
/// answer.
pub fn main_turn(shutdown: bool, installed: bool, plugin_missing: bool) -> (r: MainTurn)
    ensures
        r == (if shutdown || installed {
            MainTurn::Stop
        } else if plugin_missing {
            MainTurn::AwaitPlugin
        } else {
            MainTurn::Install
        }),
{
    if shutdown || installed {
        MainTurn::Stop
    } else if plugin_missing {
        MainTurn::AwaitPlugin
    } else {
        MainTurn::Install
    }
}

/// A turn of a supervisor with a listener of its own.
#[derive(Debug, Clone, Copy, PartialEq, Eq, Structural)]
pub enum ListenerTurn {
    Stop,
    /// Close the own listener. `refresh` tells the main listener its triggers anew.
    Close { refresh: bool, pause: Pause },
    /// All is as it should be.
    Rest(Pause),
    /// Bind the shortcut to the own listener. `refresh` first tells the main listener its triggers
    /// anew.
    Register { refresh: bool },
}

/// A turn of the supervisor of the question panel's shortcut, which watches on.
pub fn qa_turn(shutdown: bool, plan: ListenerPlan, registered: bool) -> (r: ListenerTurn)
    ensures
        r == (if shutdown {
            ListenerTurn::Stop
        } else {
            match plan {
                ListenerPlan::Off => ListenerTurn::Close {
                    refresh: false,
                    pause: Pause::Seconds(5),
                },
                ListenerPlan::MainListener => ListenerTurn::Close {
                    refresh: true,
                    pause: Pause::Seconds(5),
                },
                ListenerPlan::Own => if registered {
                    ListenerTurn::Rest(Pause::Seconds(5))
                } else {
                    ListenerTurn::Register { refresh: false }
                },
            }
        }),
{
    if shutdown {
        return ListenerTurn::Stop;
    }
    match plan {
        ListenerPlan::Off => ListenerTurn::Close { refresh: false, pause: Pause::Seconds(5) },
        ListenerPlan::MainListener => ListenerTurn::Close {
            refresh: true,
            pause: Pause::Seconds(5),
        },
        ListenerPlan::Own => if registered {
            ListenerTurn::Rest(Pause::Seconds(5))
        } else {
            ListenerTurn::Register { refresh: false }
        },
    }
}

/// A turn of the supervisor of the translation shortcut, or of an action's: they end once all is as
/// it should be, and a change of the shortcut starts from elsewhere.
pub fn ending_turn(shutdown: bool, plan: ListenerPlan, registered: bool) -> (r: ListenerTurn)
    ensures
        r == (if shutdown {
            ListenerTurn::Stop
        } else {
            match plan {
                ListenerPlan::Off => ListenerTurn::Close { refresh: false, pause: Pause::Done },
                ListenerPlan::MainListener => ListenerTurn::Close {
                    refresh: true,
                    pause: Pause::Done,
                },
                ListenerPlan::Own => if registered {
                    ListenerTurn::Rest(Pause::Done)
                } else {
                    ListenerTurn::Register { refresh: false }
                },
            }
        }),
{
    if shutdown {
        return ListenerTurn::Stop;
    }
    match plan {
        ListenerPlan::Off => ListenerTurn::Close { refresh: false, pause: Pause::Done },
        ListenerPlan::MainListener => ListenerTurn::Close { refresh: true, pause: Pause::Done },
        ListenerPlan::Own => if registered {
            ListenerTurn::Rest(Pause::Done)
        } else {
            ListenerTurn::Register { refresh: false }
        },
    }
}

/// A turn of the supervisor of the selection polish shortcut. It ends once the shortcut is bound,
/// which it does anew also where it is bound already, and the main listener is told its triggers
/// each time.
pub fn selection_polish_turn(shutdown: bool, plan: ListenerPlan) -> (r: ListenerTurn)
    ensures
        r == (if shutdown {
            ListenerTurn::Stop
        } else {
            match plan {
                ListenerPlan::Off | ListenerPlan::MainListener => ListenerTurn::Close {
                    refresh: true,
                    pause: Pause::Done,
                },
                ListenerPlan::Own => ListenerTurn::Register { refresh: true },
            }
        }),
{
    if shutdown {
        return ListenerTurn::Stop;
    }
    match plan {
        ListenerPlan::Off | ListenerPlan::MainListener => ListenerTurn::Close {
            refresh: true,
            pause: Pause::Done,
        },
        ListenerPlan::Own => ListenerTurn::Register { refresh: true },
    }
}

/// A turn of the supervisor of the dictation combination.
#[derive(Debug, Clone, Copy, PartialEq, Eq, Structural)]
pub enum ComboTurn {
    Stop,
    /// Close both listeners, and be done.
    CloseBoth,
    /// Close the one of the system, and be done: the side aware one runs.
    KeepSideAware,
    /// Close the one of the system and start the side aware one.
    StartSideAware,
    /// Close the side aware one, and be done: the one of the system runs.
    KeepSystem,
    /// Close the side aware one and start the one of the system. `tell_plugin` then tells the input
    /// method plugin the keys, where it has started.
    StartSystem { tell_plugin: bool },
}

pub fn combo_turn(
    shutdown: bool,
    plan: ComboPlan,
    side_aware_runs: bool,
    system_runs: bool,
    target: TargetOs,
) -> (r: ComboTurn)
    ensures
        r == (if shutdown {
            ComboTurn::Stop
        } else {
            match plan {
                ComboPlan::Close => ComboTurn::CloseBoth,
                ComboPlan::SideAware => if side_aware_runs {
                    ComboTurn::KeepSideAware
                } else {
                    ComboTurn::StartSideAware
                },
                ComboPlan::System => if system_runs {
                    ComboTurn::KeepSystem
                } else {
                    ComboTurn::StartSystem { tell_plugin: target is Linux }
                },
            }
        }),
{
    if shutdown {
        return ComboTurn::Stop;
    }
    match plan {
        ComboPlan::Close => ComboTurn::CloseBoth,
        ComboPlan::SideAware => if side_aware_runs {
            ComboTurn::KeepSideAware
        } else {
            ComboTurn::StartSideAware
        },
        ComboPlan::System => if system_runs {
            ComboTurn::KeepSystem
        } else {
            ComboTurn::StartSystem { tell_plugin: target == TargetOs::Linux }
        },
    }
}

/// A turn of the supervisor of the style pack shortcuts. It never ends on its own: whatever makes
/// the registrations differ from what is wanted, it registers anew.
pub fn style_pack_turn(shutdown: bool, registrations_match: bool) -> (r: ListenerTurn)
    ensures
        r == (if shutdown {
            ListenerTurn::Stop
        } else if registrations_match {
            ListenerTurn::Rest(Pause::Seconds(5))
        } else {
            ListenerTurn::Register { refresh: false }
        }),
{
    if shutdown {
        ListenerTurn::Stop
    } else if registrations_match {
        ListenerTurn::Rest(Pause::Seconds(5))
    } else {
        ListenerTurn::Register { refresh: false }
    }
}

/// When the supervisor of the agent's voice key looks at its listeners again. It watches on where
/// the system has global shortcuts of its own kind, and elsewhere looks once.
pub fn coding_agent_pause(target: TargetOs) -> (r: Pause)
    ensures
        r == (if target is Macos || target is Windows {
            Pause::Seconds(5)
        } else {
            Pause::Done
        }),
{
    match target {
        TargetOs::Macos | TargetOs::Windows => Pause::Seconds(5),
        _ => Pause::Done,
    }
}

/// However long a listener keeps failing, no ten failures in a row pass without a line in the log.
pub proof fn failures_never_go_silent(attempts: nat)
    ensures
        exists|later: nat| attempts <= later < attempts + 10 && #[trigger] is_logged(later),
{
    let rest = attempts % 10;
    let later = if rest == 0 {
        attempts
    } else {
        (attempts + (10 - rest)) as nat
    };
    assert(is_logged(later));
}

/// A failed registration is always tried again, whichever the supervisor.
pub proof fn failures_are_tried_again(kind: SupervisorKind, attempts: u32, outcome: Registration)
    requires
        !(outcome is Installed),
    ensures
        after(kind, attempts, outcome).pause is Seconds,
{
}

/// A success clears the count and ends the wait, except where the listener is looked at again: the
/// style packs after five seconds, questions, translation and actions at once.
pub proof fn successes_clear_the_count(kind: SupervisorKind, attempts: u32, r: AfterAttempt)
    requires
        call_ensures(after_attempt, (kind, attempts, Registration::Installed), r),
    ensures
        r.attempts == 0 && !r.log,
        kind is Main || kind is SelectionPolish || kind is SideAware || kind is Combination
            ==> r.pause is Done,
        kind is Qa || kind is Translation || kind is Action ==> r.pause == Pause::Seconds(0),
        kind is StylePacks ==> r.pause == Pause::Seconds(5),
{
}

/// A failure counts and is tried again after three seconds. Without a main thread it is tried again
/// after one second and not counted, but for selection polish and the style packs.
pub proof fn failures_count_and_wait(
    kind: SupervisorKind,
    attempts: u32,
    outcome: Registration,
    r: AfterAttempt,
)
    requires
        attempts < u32::MAX,
        !(outcome is Installed),
        call_ensures(after_attempt, (kind, attempts, outcome), r),
    ensures
        outcome is NoMainThread && !(kind is SelectionPolish || kind is StylePacks) ==> r.attempts
            == attempts && !r.log && r.pause == Pause::Seconds(1),
        !(outcome is NoMainThread) || kind is SelectionPolish || kind is StylePacks ==> r.attempts
            == attempts + 1 && r.pause == Pause::Seconds(3),
{
}

/// The first three failures are logged and then every tenth. A missing plugin is always logged, a
/// translation key that timed out never.
pub proof fn failures_are_logged_at_first_and_then_now_and_again(
    kind: SupervisorKind,
    attempts: u32,
    outcome: Registration,
    r: AfterAttempt,
    logged: bool,
)
    requires
        attempts < u32::MAX,
        outcome is Refused || outcome is TimedOut || outcome is NoPlugin || outcome is NoMainThread
            && (kind is SelectionPolish || kind is StylePacks),
        call_ensures(after_attempt, (kind, attempts, outcome), r),
        call_ensures(attempt_is_logged, ((attempts + 1) as u32,), logged),
    ensures
        logged <==> attempts < 3 || (attempts + 1) % 10 == 0,
        outcome is NoPlugin ==> r.log,
        outcome is Refused || outcome is NoMainThread ==> r.log == logged,
        outcome is TimedOut && kind is Translation ==> !r.log,
        outcome is TimedOut && !(kind is Translation) ==> r.log == logged,
{
}

/// The main listener is installed unless that is done, the application ends, or the plugin that it
/// needs is missing.
pub proof fn the_main_listener_waits_for_its_plugin(
    shutdown: bool,
    installed: bool,
    plugin_missing: bool,
    r: MainTurn,
)
    requires
        call_ensures(main_turn, (shutdown, installed, plugin_missing), r),
    ensures
        r is Stop <==> shutdown || installed,
        r is AwaitPlugin <==> !shutdown && !installed && plugin_missing,
        r is Install <==> !shutdown && !installed && !plugin_missing,
{
}

/// A supervisor stops with the application, closes a listener that is not its own to run, registers
/// one that is, and rests once it is registered. The main listener is told where the shortcut is its
/// own. The supervisor of questions looks again after five seconds, the others end.
pub proof fn supervisors_do_what_is_planned(
    shutdown: bool,
    plan: ListenerPlan,
    registered: bool,
    qa: ListenerTurn,
    ending: ListenerTurn,
    polish: ListenerTurn,
)
    requires
        call_ensures(qa_turn, (shutdown, plan, registered), qa),
        call_ensures(ending_turn, (shutdown, plan, registered), ending),
        call_ensures(selection_polish_turn, (shutdown, plan), polish),
    ensures
        shutdown ==> qa is Stop && ending is Stop && polish is Stop,
        !shutdown && plan is Off ==> {
            &&& qa == (ListenerTurn::Close { refresh: false, pause: Pause::Seconds(5) })
            &&& ending == (ListenerTurn::Close { refresh: false, pause: Pause::Done })
            &&& polish == (ListenerTurn::Close { refresh: true, pause: Pause::Done })
        },
        !shutdown && plan is MainListener ==> {
            &&& qa == (ListenerTurn::Close { refresh: true, pause: Pause::Seconds(5) })
            &&& ending == (ListenerTurn::Close { refresh: true, pause: Pause::Done })
            &&& polish == ending
        },
        !shutdown && plan is Own && registered ==> {
            &&& qa == ListenerTurn::Rest(Pause::Seconds(5))
            &&& ending == ListenerTurn::Rest(Pause::Done)
        },
        !shutdown && plan is Own && !registered ==> {
            &&& qa == (ListenerTurn::Register { refresh: false })
            &&& ending == qa
        },
        !shutdown && plan is Own ==> polish == (ListenerTurn::Register { refresh: true }),
{
}

/// The supervisor of the combination keeps what runs as planned and starts what does not; on Linux
/// it tells the plugin of what it starts.
pub proof fn combinations_are_kept_or_started(
    shutdown: bool,
    plan: ComboPlan,
    side_aware_runs: bool,
    system_runs: bool,
    target: TargetOs,
    r: ComboTurn,
)
    requires
        call_ensures(combo_turn, (shutdown, plan, side_aware_runs, system_runs, target), r),
    ensures
        r is Stop <==> shutdown,
        r is CloseBoth <==> !shutdown && plan is Close,
        r is KeepSideAware <==> !shutdown && plan is SideAware && side_aware_runs,
        r is StartSideAware <==> !shutdown && plan is SideAware && !side_aware_runs,
        r is KeepSystem <==> !shutdown && plan is System && system_runs,
        r is StartSystem <==> !shutdown && plan is System && !system_runs,
        r matches ComboTurn::StartSystem { tell_plugin } ==> tell_plugin == (target is Linux),
{
}

/// The style packs are registered where their registrations do not match, and looked at again after
/// five seconds; the coding agent is looked at on macOS and Windows.
pub proof fn packs_and_agent_are_looked_at_again(
    shutdown: bool,
    registrations_match: bool,
    packs: ListenerTurn,
    target: TargetOs,
    pause: Pause,
)
    requires
        call_ensures(style_pack_turn, (shutdown, registrations_match), packs),
        call_ensures(coding_agent_pause, (target,), pause),
    ensures
        packs is Stop <==> shutdown,
        !shutdown && registrations_match ==> packs == ListenerTurn::Rest(Pause::Seconds(5)),
        !shutdown && !registrations_match ==> packs == (ListenerTurn::Register { refresh: false }),
        target is Macos || target is Windows ==> pause == Pause::Seconds(5),
        !(target is Macos || target is Windows) ==> pause is Done,
{
}

} // verus!
