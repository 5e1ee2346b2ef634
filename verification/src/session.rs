//! The install interpreter, as a bounded session: the decision logic of the
//! `Provisioning -> Running -> TearingDown -> Done/Aborted` lifecycle. Each
//! step consumes the outcome of the previous outside action (an event) and
//! decides the next action (a command); the surrounding program performs the
//! filesystem work, runs the hooks and spawns the shell. Whatever the events
//! report, every provisioned directory's release is decided exactly once, in
//! reverse provisioning order, and a directory is only ever removed when the
//! event that acknowledged its provisioning reported that this run created it.

use vstd::prelude::*;

use crate::plan::{InstallInstructions, ProvisionAction, spec_bindings_of_plan};

verus! {

/// One directory resource recorded during provisioning: its binding, and
/// whether provisioning actually created the directory (a pre-existing
/// directory is recorded with `created == false` and never removed).
#[derive(Debug, PartialEq, Eq)]
pub struct CreatedDir {
    pub name: String,
    pub path: String,
    pub created: bool,
}

/// Why a session aborted.
#[derive(Debug, PartialEq, Eq)]
pub enum Failure {
    /// The provisioning action at `index` failed.
    Provision { index: usize, message: String },
    /// The hooks or the shell could not be run.
    ShellExec { message: String },
}

/// The terminal report of a session.
#[derive(Debug, PartialEq, Eq)]
pub enum Outcome {
    /// The shell ran and exited with `code`; teardown has been decided.
    Done { code: i32 },
    /// Provisioning or the shell launch failed; everything provisioned up to
    /// the failure has had its teardown decided.
    Aborted { failure: Failure },
}

/// What the session asks the surrounding program to do next.
#[derive(Debug, PartialEq, Eq)]
pub enum Command {
    /// Perform one provisioning action; reply with `Performed` or
    /// `PerformFailed`.
    Provision(ProvisionAction),
    /// Run the hook text and spawn the family's shell in `dir` with the
    /// provisioned bindings; reply with `Exited` or `LaunchFailed`.
    Launch { hooks: String, dir: String, family: String },
    /// Unbind `name`; remove the directory at `path` only if `remove_dir`;
    /// reply with `TornDown` or `TeardownFailed`.
    Teardown { name: String, path: String, remove_dir: bool },
    /// The session is over; no reply is expected.
    Finish(Outcome),
}

/// What the surrounding program reports back.
#[derive(Debug, PartialEq, Eq)]
pub enum Event {
    /// The provisioning action succeeded; for a directory action, `created`
    /// says whether the directory had to be created (false: it pre-existed).
    Performed { created: bool },
    /// The provisioning action failed.
    PerformFailed { message: String },
    /// The shell session ended, by normal exit, signal or interrupt.
    Exited { code: i32 },
    /// The hooks failed or the shell could not be spawned.
    LaunchFailed { message: String },
    /// The teardown action completed.
    TornDown,
    /// The teardown action failed; teardown is best-effort, so the failure is
    /// recorded as a warning and the session continues.
    TeardownFailed { message: String },
}

/// The lifecycle phase of a session.
#[derive(Debug, PartialEq, Eq)]
pub enum SessionState {
    /// Performing provisioning action `next`.
    Provisioning { next: usize },
    /// The shell is live.
    Running,
    /// Releasing recorded resources, top of the stack first.
    TearingDown,
    /// Terminal: the shell ran; its exit status has been reported.
    Done,
    /// Terminal: the session failed; the failure has been reported.
    Aborted,
}

/// One install session: the plan being interpreted, the lifecycle phase, the
/// stack of directory resources provisioned so far, and the best-effort
/// teardown warnings.
#[derive(Debug)]
pub struct Session {
    pub plan: InstallInstructions,
    pub state: SessionState,
    pub stack: Vec<CreatedDir>,
    pub warnings: Vec<String>,
    pub ending: Option<Outcome>,
}

impl Failure {
    /// A copy with the same fields.
    pub fn duplicate(&self) -> (r: Failure)
        ensures
            r == *self,
    {
        match self {
            Failure::Provision { index, message } => Failure::Provision {
                index: *index,
                message: message.clone(),
            },
            Failure::ShellExec { message } => Failure::ShellExec { message: message.clone() },
        }
    }
}

impl Outcome {
    /// A copy with the same fields.
    pub fn duplicate(&self) -> (r: Outcome)
        ensures
            r == *self,
    {
        match self {
            Outcome::Done { code } => Outcome::Done { code: *code },
            Outcome::Aborted { failure } => Outcome::Aborted { failure: failure.duplicate() },
        }
    }
}

/// The stack records exactly the bindings `ds`, in order; only the
/// `created` flags, which the events decide, are free.
pub open spec fn stack_matches(stack: Seq<CreatedDir>, ds: Seq<crate::compile::EnvDir>) -> bool {
    &&& stack.len() == ds.len()
    &&& forall|k: int|
        0 <= k < ds.len() ==> (#[trigger] stack[k]).name == ds[k].name && stack[k].path
            == ds[k].path
}

impl Session {
    /// The session invariant.
    pub open spec fn wf(&self) -> bool {
        &&& self.plan.wf()
        &&& match self.state {
            SessionState::Provisioning { next } => {
                &&& next < self.plan.actions@.len()
                &&& self.ending is None
                &&& stack_matches(
                    self.stack@,
                    spec_bindings_of_plan(self.plan.actions@.take(next as int)),
                )
            },
            SessionState::Running => {
                &&& self.ending is None
                &&& stack_matches(self.stack@, spec_bindings_of_plan(self.plan.actions@))
            },
            SessionState::TearingDown => {
                &&& self.ending is Some
                &&& self.stack@.len() > 0
            },
            SessionState::Done => self.stack@.len() == 0,
            SessionState::Aborted => self.stack@.len() == 0,
        }
    }

    /// Which events the session can consume in its current phase.
    pub open spec fn expects(&self, e: Event) -> bool {
        match self.state {
            SessionState::Provisioning { .. } => e is Performed || e is PerformFailed,
            SessionState::Running => e is Exited || e is LaunchFailed,
            SessionState::TearingDown => e is TornDown || e is TeardownFailed,
            SessionState::Done => false,
            SessionState::Aborted => false,
        }
    }
}

/// How a session enters or continues teardown, given the resource stack and
/// the outcome to report at the end: with resources left, release the top of
/// the stack; with none, finish with the stored outcome.
pub open spec fn teardown_rel(
    stack: Seq<CreatedDir>,
    ending: Outcome,
    post: Session,
    c: Command,
) -> bool {
    &&& post.stack@ == stack
    &&& if stack.len() == 0 {
        &&& post.state == (match ending {
            Outcome::Done { .. } => SessionState::Done,
            Outcome::Aborted { .. } => SessionState::Aborted,
        })
        &&& post.ending == Some(ending)
        &&& c == Command::Finish(ending)
    } else {
        &&& post.state is TearingDown
        &&& post.ending == Some(ending)
        &&& c == Command::Teardown {
            name: stack.last().name,
            path: stack.last().path,
            remove_dir: stack.last().created,
        }
    }
}

/// The transition relation of the session: the state machine of the install
/// lifecycle, one event consumed, one command decided.
pub open spec fn step_rel(pre: Session, e: Event, post: Session, c: Command) -> bool {
    &&& post.plan == pre.plan
    &&& match pre.state {
        SessionState::Provisioning { next } => {
            let a = pre.plan.actions@[next as int];
            match e {
                Event::Performed { created } => {
                    let stack2 = match a {
                        ProvisionAction::EnsureDir { name, path } => pre.stack@.push(
                            CreatedDir { name, path, created },
                        ),
                        ProvisionAction::WriteFile { .. } => pre.stack@,
                    };
                    &&& post.warnings@ == pre.warnings@
                    &&& post.stack@ == stack2
                    &&& if next + 1 < pre.plan.actions@.len() {
                        &&& post.state == SessionState::Provisioning { next: (next + 1) as usize }
                        &&& post.ending is None
                        &&& c == Command::Provision(pre.plan.actions@[next + 1])
                    } else {
                        &&& post.state is Running
                        &&& post.ending is None
                        &&& c == Command::Launch {
                            hooks: pre.plan.hooks,
                            dir: pre.plan.dir,
                            family: pre.plan.family,
                        }
                    }
                },
                Event::PerformFailed { message } => {
                    &&& post.warnings@ == pre.warnings@
                    &&& teardown_rel(
                        pre.stack@,
                        Outcome::Aborted { failure: Failure::Provision { index: next, message } },
                        post,
                        c,
                    )
                },
                _ => false,
            }
        },
        SessionState::Running => match e {
            Event::Exited { code } => {
                &&& post.warnings@ == pre.warnings@
                &&& teardown_rel(pre.stack@, Outcome::Done { code }, post, c)
            },
            Event::LaunchFailed { message } => {
                &&& post.warnings@ == pre.warnings@
                &&& teardown_rel(
                    pre.stack@,
                    Outcome::Aborted { failure: Failure::ShellExec { message } },
                    post,
                    c,
                )
            },
            _ => false,
        },
        SessionState::TearingDown => {
            let ending = pre.ending->0;
            match e {
                Event::TornDown => {
                    &&& post.warnings@ == pre.warnings@
                    &&& teardown_rel(pre.stack@.drop_last(), ending, post, c)
                },
                Event::TeardownFailed { message } => {
                    &&& post.warnings@ == pre.warnings@.push(message)
                    &&& teardown_rel(pre.stack@.drop_last(), ending, post, c)
                },
                _ => false,
            }
        },
        SessionState::Done => false,
        SessionState::Aborted => false,
    }
}

impl Session {
    /// Open a session on a well-formed plan and decide the first command:
    /// the first provisioning action, or, for an empty plan, the launch.
    pub fn start(plan: InstallInstructions) -> (r: (Session, Command))
        requires
            plan.wf(),
        ensures
            r.0.wf(),
            r.0.plan == plan,
            r.0.stack@.len() == 0,
            r.0.warnings@.len() == 0,
            plan.actions@.len() > 0 ==> r.0.state == (SessionState::Provisioning { next: 0 })
                && r.1 == Command::Provision(plan.actions@[0]),
            plan.actions@.len() == 0 ==> r.0.state is Running && r.1 == (Command::Launch {
                hooks: plan.hooks,
                dir: plan.dir,
                family: plan.family,
            }),
    {
        if plan.actions.len() > 0 {
            let c = Command::Provision(plan.actions[0].duplicate());
            let s = Session {
                plan,
                state: SessionState::Provisioning { next: 0 },
                stack: Vec::new(),
                warnings: Vec::new(),
                ending: None,
            };
            proof {
                assert(s.plan.actions@.take(0) =~= Seq::<ProvisionAction>::empty());
            }
            (s, c)
        } else {
            let c = Command::Launch {
                hooks: plan.hooks.clone(),
                dir: plan.dir.clone(),
                family: plan.family.clone(),
            };
            let s = Session {
                plan,
                state: SessionState::Running,
                stack: Vec::new(),
                warnings: Vec::new(),
                ending: None,
            };
            proof {
                assert(spec_bindings_of_plan(s.plan.actions@).len() == 0);
            }
            (s, c)
        }
    }

    /// Enter or continue teardown: release the top of the stack, or finish.
    fn teardown_step(&mut self, ending: Outcome) -> (c: Command)
        requires
            old(self).plan.wf(),
        ensures
            final(self).plan == old(self).plan,
            final(self).warnings@ == old(self).warnings@,
            teardown_rel(old(self).stack@, ending, *final(self), c),
            final(self).wf(),
    {
        if self.stack.len() == 0 {
            let c = Command::Finish(ending.duplicate());
            self.state = match &ending {
                Outcome::Done { .. } => SessionState::Done,
                Outcome::Aborted { .. } => SessionState::Aborted,
            };
            self.ending = Some(ending);
            c
        } else {
            let top = &self.stack[self.stack.len() - 1];
            let c = Command::Teardown {
                name: top.name.clone(),
                path: top.path.clone(),
                remove_dir: top.created,
            };
            self.state = SessionState::TearingDown;
            self.ending = Some(ending);
            c
        }
    }

    /// Consume the outcome of the previous command and decide the next one.
    pub fn step(&mut self, event: Event) -> (c: Command)
        requires
            old(self).wf(),
            old(self).expects(event),
        ensures
            final(self).wf(),
            step_rel(*old(self), event, *final(self), c),
    {
        let ghost pre = *self;
        match &self.state {
            SessionState::Provisioning { next } => {
                let next = *next;
                match event {
                    Event::Performed { created } => {
                        match &self.plan.actions[next] {
                            ProvisionAction::EnsureDir { name, path } => {
                                self.stack.push(
                                    CreatedDir {
                                        name: name.clone(),
                                        path: path.clone(),
                                        created,
                                    },
                                );
                            },
                            ProvisionAction::WriteFile { .. } => {},
                        }
                        proof {
                            assert(self.state == SessionState::Provisioning { next });
                            assert(next < self.plan.actions@.len());
                            assert(pre.plan.actions@.take(next as int).push(
                                pre.plan.actions@[next as int],
                            ) =~= pre.plan.actions@.take(next + 1));
                            crate::plan::lemma_bindings_snoc(pre.plan.actions@, next as int);
                        }
                        let n = self.plan.actions.len();
                        if next + 1 < n {
                            self.state = SessionState::Provisioning { next: next + 1 };
                            Command::Provision(self.plan.actions[next + 1].duplicate())
                        } else {
                            self.state = SessionState::Running;
                            proof {
                                assert(pre.plan.actions@.take(next + 1) =~= pre.plan.actions@);
                            }
                            Command::Launch {
                                hooks: self.plan.hooks.clone(),
                                dir: self.plan.dir.clone(),
                                family: self.plan.family.clone(),
                            }
                        }
                    },
                    Event::PerformFailed { message } => {
                        self.teardown_step(
                            Outcome::Aborted {
                                failure: Failure::Provision { index: next, message },
                            },
                        )
                    },
                    _ => {
                        proof {
                            assert(false);
                        }
                        Command::Finish(Outcome::Done { code: 0 })
                    },
                }
            },
            SessionState::Running => match event {
                Event::Exited { code } => self.teardown_step(Outcome::Done { code }),
                Event::LaunchFailed { message } => {
                    self.teardown_step(
                        Outcome::Aborted { failure: Failure::ShellExec { message } },
                    )
                },
                _ => {
                    proof {
                        assert(false);
                    }
                    Command::Finish(Outcome::Done { code: 0 })
                },
            },
            SessionState::TearingDown => {
                let ending = match &self.ending {
                    Some(o) => o.duplicate(),
                    None => {
                        proof {
                            assert(false);
                        }
                        Outcome::Done { code: 0 }
                    },
                };
                match event {
                    Event::TornDown => {
                        let _ = self.stack.pop();
                        self.teardown_step(ending)
                    },
                    Event::TeardownFailed { message } => {
                        self.warnings.push(message);
                        let _ = self.stack.pop();
                        self.teardown_step(ending)
                    },
                    _ => {
                        proof {
                            assert(false);
                        }
                        Command::Finish(Outcome::Done { code: 0 })
                    },
                }
            },
            SessionState::Done | SessionState::Aborted => {
                proof {
                    assert(false);
                }
                Command::Finish(Outcome::Done { code: 0 })
            },
        }
    }
}

/// How far a session still has to go: strictly decreasing across steps, so
/// every session reaches `Done` or `Aborted` after finitely many events,
/// whatever the events report.
pub open spec fn session_measure(s: Session) -> int {
    match s.state {
        SessionState::Provisioning { next } => 2 * (s.plan.actions@.len() - next) + s.stack@.len()
            + 3,
        SessionState::Running => s.stack@.len() + 2int,
        SessionState::TearingDown => s.stack@.len() + 1int,
        SessionState::Done => 0int,
        SessionState::Aborted => 0int,
    }
}

/// Law (bounded session): each step strictly decreases the session measure,
/// so the interpreter never returns while still provisioning or running:
/// every event path reaches a terminal state.
pub proof fn lemma_session_progress(pre: Session, e: Event, post: Session, c: Command)
    requires
        pre.wf(),
        pre.expects(e),
        step_rel(pre, e, post, c),
    ensures
        session_measure(post) < session_measure(pre),
        session_measure(post) >= 0,
{
    match pre.state {
        SessionState::Provisioning { next } => {
            vstd::std_specs::vec::axiom_spec_len(&pre.plan.actions);
            assert(pre.plan.actions@.len() <= usize::MAX);
            assert(next < pre.plan.actions@.len());
            assert(post.plan.actions@.len() == pre.plan.actions@.len());
            match e {
                Event::Performed { .. } => {
                    assert(post.stack@.len() <= pre.stack@.len() + 1);
                },
                Event::PerformFailed { .. } => {
                    assert(post.stack@.len() == pre.stack@.len());
                },
                _ => {},
            }
        },
        SessionState::Running => {
            assert(post.stack@.len() == pre.stack@.len());
        },
        SessionState::TearingDown => {
            assert(post.stack@.len() == pre.stack@.len() - 1);
        },
        SessionState::Done => {},
        SessionState::Aborted => {},
    }
}

/// Law (LIFO teardown): while tearing down, the session releases exactly the
/// top of the resource stack and pops it, so releases happen in exact
/// reverse provisioning order and each resource's release is decided exactly
/// once.
pub proof fn lemma_teardown_in_reverse(pre: Session, e: Event, post: Session, c: Command)
    requires
        pre.wf(),
        pre.expects(e),
        step_rel(pre, e, post, c),
        (pre.state is TearingDown),
    ensures
        post.stack@ == pre.stack@.drop_last(),
        post.stack@.len() > 0 ==> c == (Command::Teardown {
            name: post.stack@.last().name,
            path: post.stack@.last().path,
            remove_dir: post.stack@.last().created,
        }),
        post.stack@.len() == 0 ==> c == Command::Finish(pre.ending->0),
{
}

/// Law (pre-existing directories are never removed): a removal is only ever
/// commanded with `remove_dir` equal to the `created` flag that the
/// provisioning event reported for that directory; a directory that
/// pre-existed is unbound but kept.
pub proof fn lemma_removal_only_when_created(pre: Session, e: Event, post: Session, c: Command)
    requires
        pre.wf(),
        pre.expects(e),
        step_rel(pre, e, post, c),
        (c matches Command::Teardown { remove_dir: true, .. }),
    ensures
        post.stack@.len() > 0,
        post.stack@.last().created,
        c == (Command::Teardown {
            name: post.stack@.last().name,
            path: post.stack@.last().path,
            remove_dir: true,
        }),
{
}

/// Law (partial-abort cleanup): when provisioning action `next` fails, the
/// session moves straight to tearing down exactly the directories recorded
/// for the actions before `next` (or aborts at once when there are none);
/// nothing new is provisioned and nothing recorded is forgotten.
pub proof fn lemma_abort_cleans_prefix(pre: Session, e: Event, post: Session, c: Command)
    requires
        pre.wf(),
        pre.expects(e),
        step_rel(pre, e, post, c),
        (pre.state matches SessionState::Provisioning { next }),
        (e is PerformFailed),
    ensures
        (pre.state matches SessionState::Provisioning { next } ==> stack_matches(
            post.stack@,
            spec_bindings_of_plan(pre.plan.actions@.take(next as int)),
        )),
        (post.state is TearingDown) || (post.stack@.len() == 0 && post.state is Aborted),
{
}

} // verus!
