//! The orchestrator: an ordered sequence of heterogeneous steps, the
//! current position, and the shared context. It drives the
//! load -> interact -> apply -> advance cycle and trusts each step's
//! boolean `apply` result as the sole advance/block signal.

use vstd::prelude::*;

use crate::bitcoind::DefineBitcoind;
use crate::context::Context;
use crate::finalize::Final;
use crate::message::{Cmd, Message};
use crate::step::{Step, Welcome};
use crate::view::{Screen, ViewModel};

verus! {

/// The closed set of screens a wizard can be built from, stored in one
/// ordered sequence.
pub enum AnyStep {
    Welcome(Welcome),
    DefineBitcoind(DefineBitcoind),
    Final(Final),
}

impl Step for AnyStep {
    open spec fn skip_spec(self, ctx: Context) -> bool {
        match self {
            AnyStep::Welcome(s) => s.skip_spec(ctx),
            AnyStep::DefineBitcoind(s) => s.skip_spec(ctx),
            AnyStep::Final(s) => s.skip_spec(ctx),
        }
    }

    open spec fn apply_ok(self, ctx: Context) -> bool {
        match self {
            AnyStep::Welcome(s) => s.apply_ok(ctx),
            AnyStep::DefineBitcoind(s) => s.apply_ok(ctx),
            AnyStep::Final(s) => s.apply_ok(ctx),
        }
    }

    open spec fn apply_to(self, ctx: Context) -> (Self, Context) {
        match self {
            AnyStep::Welcome(s) => {
                let sc = s.apply_to(ctx);
                (AnyStep::Welcome(sc.0), sc.1)
            },
            AnyStep::DefineBitcoind(s) => {
                let sc = s.apply_to(ctx);
                (AnyStep::DefineBitcoind(sc.0), sc.1)
            },
            AnyStep::Final(s) => {
                let sc = s.apply_to(ctx);
                (AnyStep::Final(sc.0), sc.1)
            },
        }
    }

    open spec fn update_spec(self, m: Message) -> (Self, Cmd) {
        match self {
            AnyStep::Welcome(s) => {
                let sc = s.update_spec(m);
                (AnyStep::Welcome(sc.0), sc.1)
            },
            AnyStep::DefineBitcoind(s) => {
                let sc = s.update_spec(m);
                (AnyStep::DefineBitcoind(sc.0), sc.1)
            },
            AnyStep::Final(s) => {
                let sc = s.update_spec(m);
                (AnyStep::Final(sc.0), sc.1)
            },
        }
    }

    open spec fn load_pre(self, ctx: Context) -> bool {
        match self {
            AnyStep::Welcome(s) => s.load_pre(ctx),
            AnyStep::DefineBitcoind(s) => s.load_pre(ctx),
            AnyStep::Final(s) => s.load_pre(ctx),
        }
    }

    open spec fn load_rel(self, ctx: Context, post: Self) -> bool {
        match self {
            AnyStep::Welcome(s) => match post {
                AnyStep::Welcome(p) => s.load_rel(ctx, p),
                _ => false,
            },
            AnyStep::DefineBitcoind(s) => match post {
                AnyStep::DefineBitcoind(p) => s.load_rel(ctx, p),
                _ => false,
            },
            AnyStep::Final(s) => match post {
                AnyStep::Final(p) => s.load_rel(ctx, p),
                _ => false,
            },
        }
    }

    open spec fn load_cmd(self) -> Cmd {
        match self {
            AnyStep::Welcome(s) => s.load_cmd(),
            AnyStep::DefineBitcoind(s) => s.load_cmd(),
            AnyStep::Final(s) => s.load_cmd(),
        }
    }

    open spec fn view_pre(self) -> bool {
        match self {
            AnyStep::Welcome(s) => s.view_pre(),
            AnyStep::DefineBitcoind(s) => s.view_pre(),
            AnyStep::Final(s) => s.view_pre(),
        }
    }

    open spec fn view_spec(self) -> Screen {
        match self {
            AnyStep::Welcome(s) => s.view_spec(),
            AnyStep::DefineBitcoind(s) => s.view_spec(),
            AnyStep::Final(s) => s.view_spec(),
        }
    }

    fn update(&mut self, message: Message) -> (c: Cmd) {
        match self {
            AnyStep::Welcome(s) => s.update(message),
            AnyStep::DefineBitcoind(s) => s.update(message),
            AnyStep::Final(s) => s.update(message),
        }
    }

    fn view(&self, progress: (usize, usize)) -> (v: ViewModel) {
        match self {
            AnyStep::Welcome(s) => s.view(progress),
            AnyStep::DefineBitcoind(s) => s.view(progress),
            AnyStep::Final(s) => s.view(progress),
        }
    }

    fn load_context(&mut self, ctx: &Context) {
        match self {
            AnyStep::Welcome(s) => s.load_context(ctx),
            AnyStep::DefineBitcoind(s) => s.load_context(ctx),
            AnyStep::Final(s) => s.load_context(ctx),
        }
    }

    fn can_load(&self, ctx: &Context) -> (r: bool) {
        match self {
            AnyStep::Welcome(s) => s.can_load(ctx),
            AnyStep::DefineBitcoind(s) => s.can_load(ctx),
            AnyStep::Final(s) => s.can_load(ctx),
        }
    }

    fn can_view(&self) -> (r: bool) {
        match self {
            AnyStep::Welcome(s) => s.can_view(),
            AnyStep::DefineBitcoind(s) => s.can_view(),
            AnyStep::Final(s) => s.can_view(),
        }
    }

    fn load(&self) -> (c: Cmd) {
        match self {
            AnyStep::Welcome(s) => s.load(),
            AnyStep::DefineBitcoind(s) => s.load(),
            AnyStep::Final(s) => s.load(),
        }
    }

    fn skip(&self, ctx: &Context) -> (r: bool) {
        match self {
            AnyStep::Welcome(s) => s.skip(ctx),
            AnyStep::DefineBitcoind(s) => s.skip(ctx),
            AnyStep::Final(s) => s.skip(ctx),
        }
    }

    fn apply(&mut self, ctx: &mut Context) -> (r: bool) {
        match self {
            AnyStep::Welcome(s) => s.apply(ctx),
            AnyStep::DefineBitcoind(s) => s.apply(ctx),
            AnyStep::Final(s) => s.apply(ctx),
        }
    }
}

/// What a request to advance did.
pub enum Advance {
    /// The wizard was already on the terminal step.
    AtEnd,
    /// The current step's `apply` refused; the wizard stays put.
    Blocked,
    /// The wizard entered a later step, whose `load` emitted this
    /// command.
    Moved(Cmd),
    /// The entered step's ordering precondition does not hold: a
    /// broken pipeline guarantee, fatal to the session.
    Broken,
}

pub struct Wizard {
    pub steps: Vec<AnyStep>,
    pub current: usize,
    pub context: Context,
}

impl Wizard {
    /// A wizard always has at least one step and a current position
    /// inside the sequence.
    pub open spec fn wf(&self) -> bool {
        0 < self.steps@.len() && self.current < self.steps@.len()
    }

    pub fn new(steps: Vec<AnyStep>, context: Context) -> (w: Wizard)
        requires
            steps@.len() > 0,
        ensures
            w.steps == steps,
            w.current == 0,
            w.context == context,
            w.wf(),
    {
        Wizard { steps, current: 0, context }
    }

    /// Enters the current step: `load_context` then `load`. `None`
    /// means the step's ordering precondition failed and nothing ran.
    pub fn start(&mut self) -> (r: Option<Cmd>)
        requires
            old(self).wf(),
        ensures
            final(self).wf(),
            final(self).current == old(self).current,
            final(self).context == old(self).context,
            final(self).steps@.len() == old(self).steps@.len(),
            match r {
                Some(c) => {
                    let cur = old(self).current as int;
                    let entered = final(self).steps@[cur];
                    &&& old(self).steps@[cur].load_pre(old(self).context)
                    &&& old(self).steps@[cur].load_rel(old(self).context, entered)
                    &&& c == entered.load_cmd()
                    &&& final(self).steps@ == old(self).steps@.update(cur, entered)
                },
                None => {
                    &&& !old(self).steps@[old(self).current as int].load_pre(old(self).context)
                    &&& *final(self) == *old(self)
                },
            },
    {
        let cur = self.current;
        if !self.steps[cur].can_load(&self.context) {
            return None;
        }
        let step = &mut self.steps[cur];
        step.load_context(&self.context);
        let c = self.steps[cur].load();
        Some(c)
    }

    /// Dispatches a message to the current step.
    pub fn update(&mut self, message: Message) -> (c: Cmd)
        requires
            old(self).wf(),
        ensures
            final(self).wf(),
            final(self).current == old(self).current,
            final(self).context == old(self).context,
            ({
                let cur = old(self).current as int;
                let sc = old(self).steps@[cur].update_spec(message);
                &&& final(self).steps@ == old(self).steps@.update(cur, sc.0)
                &&& c == sc.1
            }),
    {
        let cur = self.current;
        let step = &mut self.steps[cur];
        step.update(message)
    }

    /// The renderable description of the current step, or `None` when
    /// its display precondition does not hold.
    pub fn view_current(&self) -> (r: Option<ViewModel>)
        requires
            self.wf(),
        ensures
            match r {
                Some(v) => {
                    let cur = self.current as int;
                    &&& self.steps@[cur].view_pre()
                    &&& v.current == self.current
                    &&& v.total == self.steps@.len()
                    &&& v.screen == self.steps@[cur].view_spec()
                },
                None => !self.steps@[self.current as int].view_pre(),
            },
    {
        let step = &self.steps[self.current];
        if step.can_view() {
            Some(step.view((self.current, self.steps.len())))
        } else {
            None
        }
    }

    /// Moves back to the previous index, keeping every step's retained
    /// state so prior input is restored without re-entry.
    pub fn previous(&mut self)
        requires
            old(self).wf(),
        ensures
            final(self).wf(),
            final(self).steps == old(self).steps,
            final(self).context == old(self).context,
            old(self).current > 0 ==> final(self).current == old(self).current - 1,
            old(self).current == 0 ==> final(self).current == 0,
    {
        if self.current > 0 {
            self.current = self.current - 1;
        }
    }

    /// Advances: `apply` on the current step, then past every later
    /// step whose `skip` accepts the committed context (the terminal
    /// step is never skipped), then `load_context` and `load` on the
    /// entered step.
    pub fn next(&mut self) -> (r: Advance)
        requires
            old(self).wf(),
        ensures
            final(self).wf(),
            final(self).steps@.len() == old(self).steps@.len(),
            match r {
                Advance::AtEnd => {
                    &&& old(self).current == old(self).steps@.len() - 1
                    &&& *final(self) == *old(self)
                },
                Advance::Blocked => {
                    let cur = old(self).current as int;
                    let sc = old(self).steps@[cur].apply_to(old(self).context);
                    &&& cur < old(self).steps@.len() - 1
                    &&& !old(self).steps@[cur].apply_ok(old(self).context)
                    &&& final(self).current == old(self).current
                    &&& final(self).context == old(self).context
                    &&& final(self).steps@ == old(self).steps@.update(cur, sc.0)
                },
                Advance::Moved(c) => {
                    let cur = old(self).current as int;
                    let sc = old(self).steps@[cur].apply_to(old(self).context);
                    let mid = old(self).steps@.update(cur, sc.0);
                    let ctx2 = sc.1;
                    let new = final(self).current as int;
                    let entered = final(self).steps@[new];
                    &&& cur < old(self).steps@.len() - 1
                    &&& old(self).steps@[cur].apply_ok(old(self).context)
                    &&& final(self).context == ctx2
                    &&& cur < new < old(self).steps@.len()
                    &&& (forall|j: int| cur < j < new ==> #[trigger] mid[j].skip_spec(ctx2))
                    &&& (new < old(self).steps@.len() - 1 ==> !mid[new].skip_spec(ctx2))
                    &&& mid[new].load_pre(ctx2)
                    &&& mid[new].load_rel(ctx2, entered)
                    &&& c == entered.load_cmd()
                    &&& final(self).steps@ == mid.update(new, entered)
                },
                Advance::Broken => {
                    let cur = old(self).current as int;
                    let sc = old(self).steps@[cur].apply_to(old(self).context);
                    let mid = old(self).steps@.update(cur, sc.0);
                    let ctx2 = sc.1;
                    let new = final(self).current as int;
                    &&& cur < old(self).steps@.len() - 1
                    &&& old(self).steps@[cur].apply_ok(old(self).context)
                    &&& final(self).context == ctx2
                    &&& cur < new < old(self).steps@.len()
                    &&& (forall|j: int| cur < j < new ==> #[trigger] mid[j].skip_spec(ctx2))
                    &&& !mid[new].load_pre(ctx2)
                    &&& final(self).steps@ == mid
                },
            },
    {
        let len = self.steps.len();
        if self.current >= len - 1 {
            return Advance::AtEnd;
        }
        let cur = self.current;
        let applied = {
            let step = &mut self.steps[cur];
            step.apply(&mut self.context)
        };
        if !applied {
            return Advance::Blocked;
        }
        let ghost mid = self.steps@;
        let ghost ctx2 = self.context;
        let mut i = cur + 1;
        while i < len - 1 && self.steps[i].skip(&self.context)
            invariant
                cur + 1 <= i <= len - 1,
                len == self.steps@.len(),
                self.steps@ == mid,
                self.context == ctx2,
                self.current == cur,
                forall|j: int| cur < j < i ==> #[trigger] mid[j].skip_spec(ctx2),
            decreases len - 1 - i,
        {
            i = i + 1;
        }
        self.current = i;
        if !self.steps[i].can_load(&self.context) {
            return Advance::Broken;
        }
        let step = &mut self.steps[i];
        step.load_context(&self.context);
        let c = self.steps[i].load();
        Advance::Moved(c)
    }
}

} // verus!
