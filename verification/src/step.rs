//! The capability set every screen conforms to. The orchestrator
//! drives a step only through this contract: `skip` is a pure
//! predicate, `apply` is the sole advance/block signal and the only
//! operation that may write the shared context, and `update` consumes
//! messages and may ask for a deferred effect.

use vstd::prelude::*;

use crate::context::Context;
use crate::message::{Cmd, Message};
use crate::view::{Screen, ViewModel};

verus! {

pub trait Step: Sized {
    /// Pure meaning of `skip`: whether the wizard passes this step
    /// over, given the context before entry.
    spec fn skip_spec(self, ctx: Context) -> bool;

    /// Whether `apply` commits on this state.
    spec fn apply_ok(self, ctx: Context) -> bool;

    /// The step and context after `apply`: on success the committed
    /// context, on failure the context unchanged and only the step's
    /// validity flags updated.
    spec fn apply_to(self, ctx: Context) -> (Self, Context);

    /// The step and the emitted command after `update` consumes a
    /// message.
    spec fn update_spec(self, m: Message) -> (Self, Cmd);

    /// What `load_context` needs of the context; entering the step
    /// without it is a broken ordering guarantee, fatal to the session.
    spec fn load_pre(self, ctx: Context) -> bool;

    /// How `load_context` may change the step. A relation, not a
    /// function: defaults drawn from the platform need not be
    /// determined by the arguments.
    spec fn load_rel(self, ctx: Context, post: Self) -> bool;

    /// The command `load` emits once per entry.
    spec fn load_cmd(self) -> Cmd;

    /// Whether the step can be rendered in its current state.
    spec fn view_pre(self) -> bool;

    /// The screen `view` renders.
    spec fn view_spec(self) -> Screen;

    /// Synchronous state change in response to a message; ignores
    /// messages addressed to another step. Never touches the context.
    fn update(&mut self, message: Message) -> (c: Cmd)
        ensures
            ({
                let (s, c2) = old(self).update_spec(message);
                *final(self) == s && c == c2
            }),
    ;

    /// Pure description of the current state for the rendering
    /// collaborator; `progress` is (current index, total count).
    fn view(&self, progress: (usize, usize)) -> (v: ViewModel)
        requires
            self.view_pre(),
        ensures
            v.current == progress.0,
            v.total == progress.1,
            v.screen == self.view_spec(),
    ;

    /// Reads the context on entry to pre-populate defaults; must not
    /// overwrite what the user already entered.
    fn load_context(&mut self, ctx: &Context)
        requires
            old(self).load_pre(*ctx),
        ensures
            old(self).load_rel(*ctx, *final(self)),
    ;

    /// Exec mirror of `load_pre`, so the orchestrator can detect a
    /// broken ordering guarantee instead of entering the step.
    fn can_load(&self, ctx: &Context) -> (r: bool)
        ensures
            r == self.load_pre(*ctx),
    ;

    /// Exec mirror of `view_pre`.
    fn can_view(&self) -> (r: bool)
        ensures
            r == self.view_pre(),
    ;

    /// Emits the step's automatic asynchronous action, once per entry.
    fn load(&self) -> (c: Cmd)
        ensures
            c == self.load_cmd(),
    ;

    /// Pure, side-effect-free predicate, evaluated against the context
    /// before entering this step.
    fn skip(&self, ctx: &Context) -> (r: bool)
        ensures
            r == self.skip_spec(*ctx),
    ;

    /// Validates the step's state; on success commits the step's own
    /// fields into the context and returns true, on failure marks the
    /// invalid fields and returns false leaving the context unchanged.
    fn apply(&mut self, ctx: &mut Context) -> (r: bool)
        ensures
            r == old(self).apply_ok(*old(ctx)),
            !r ==> *final(ctx) == *old(ctx),
            ({
                let (s, c) = old(self).apply_to(*old(ctx));
                *final(self) == s && *final(ctx) == c
            }),
    ;
}

/// The greeting screen: nothing to validate, nothing to commit.
pub struct Welcome {}

impl Welcome {
    pub fn new() -> (r: Welcome)
        ensures
            r == (Welcome {  }),
    {
        Welcome {  }
    }
}

impl Default for Welcome {
    fn default() -> (r: Self)
        ensures
            r == (Welcome {  }),
    {
        Welcome {  }
    }
}

impl Step for Welcome {
    open spec fn skip_spec(self, ctx: Context) -> bool {
        false
    }

    open spec fn apply_ok(self, ctx: Context) -> bool {
        true
    }

    open spec fn apply_to(self, ctx: Context) -> (Self, Context) {
        (self, ctx)
    }

    open spec fn update_spec(self, m: Message) -> (Self, Cmd) {
        (self, Cmd::NoOp)
    }

    open spec fn load_pre(self, ctx: Context) -> bool {
        true
    }

    open spec fn load_rel(self, ctx: Context, post: Self) -> bool {
        post == self
    }

    open spec fn load_cmd(self) -> Cmd {
        Cmd::NoOp
    }

    open spec fn view_pre(self) -> bool {
        true
    }

    open spec fn view_spec(self) -> Screen {
        Screen::Welcome
    }

    fn update(&mut self, message: Message) -> (c: Cmd) {
        Cmd::NoOp
    }

    fn view(&self, progress: (usize, usize)) -> (v: ViewModel) {
        ViewModel { current: progress.0, total: progress.1, screen: Screen::Welcome }
    }

    fn load_context(&mut self, ctx: &Context) {
    }

    fn can_load(&self, ctx: &Context) -> (r: bool) {
        true
    }

    fn can_view(&self) -> (r: bool) {
        true
    }

    fn load(&self) -> (c: Cmd) {
        Cmd::NoOp
    }

    fn skip(&self, ctx: &Context) -> (r: bool) {
        false
    }

    fn apply(&mut self, ctx: &mut Context) -> (r: bool) {
        true
    }
}

} // verus!
