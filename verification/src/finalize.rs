//! The finalization step: snapshots the accumulated context for
//! display, resolves which signer identity to show, and tracks the
//! configuration write that the hosting shell performs.

use vstd::prelude::*;

use crate::context::Context;
use crate::message::{Cmd, Message};
use crate::step::Step;
use crate::text::{contains_str, has_substring};
use crate::view::{Screen, ViewModel};

verus! {

pub struct Final {
    pub generating: bool,
    /// Snapshot of the context, taken on entry for display.
    pub context: Option<Context>,
    pub warning: Option<String>,
    pub config_path: Option<String>,
    /// Identity of the locally generated key, or, on a recovery path,
    /// of the recovered signer.
    pub hot_signer_fingerprint: String,
    /// Set when the locally generated key is not referenced by the
    /// final policy, so the screen can warn that it went unused.
    pub hot_signer_is_not_used: bool,
}

impl Final {
    pub fn new(hot_signer_fingerprint: String) -> (r: Self)
        ensures
            !r.generating,
            r.context is None,
            r.warning is None,
            r.config_path is None,
            r.hot_signer_fingerprint == hot_signer_fingerprint,
            !r.hot_signer_is_not_used,
    {
        Final {
            generating: false,
            context: None,
            warning: None,
            config_path: None,
            hot_signer_fingerprint,
            hot_signer_is_not_used: false,
        }
    }

    /// The signer identity the screen displays: suppressed when the
    /// locally generated key went unused.
    pub open spec fn spec_displayed_signer(self) -> Option<String> {
        if self.hot_signer_is_not_used {
            None
        } else {
            Some(self.hot_signer_fingerprint)
        }
    }
}

impl Step for Final {
    open spec fn skip_spec(self, ctx: Context) -> bool {
        false
    }

    open spec fn apply_ok(self, ctx: Context) -> bool {
        true
    }

    open spec fn apply_to(self, ctx: Context) -> (Self, Context) {
        (self, ctx)
    }

    open spec fn update_spec(self, m: Message) -> (Self, Cmd) {
        match m {
            Message::Installed(res) => {
                let stepped = match res {
                    Err(e) => Final {
                        generating: false,
                        context: self.context,
                        warning: Some(e),
                        config_path: None,
                        hot_signer_fingerprint: self.hot_signer_fingerprint,
                        hot_signer_is_not_used: self.hot_signer_is_not_used,
                    },
                    Ok(path) => Final {
                        generating: false,
                        context: self.context,
                        warning: self.warning,
                        config_path: Some(path),
                        hot_signer_fingerprint: self.hot_signer_fingerprint,
                        hot_signer_is_not_used: self.hot_signer_is_not_used,
                    },
                };
                (stepped, Cmd::NoOp)
            },
            Message::Install => (
                Final {
                    generating: true,
                    context: self.context,
                    warning: None,
                    config_path: None,
                    hot_signer_fingerprint: self.hot_signer_fingerprint,
                    hot_signer_is_not_used: self.hot_signer_is_not_used,
                },
                Cmd::NoOp,
            ),
            _ => (self, Cmd::NoOp),
        }
    }

    /// Entering finalization without a recovered signer or a committed
    /// descriptor is a broken ordering guarantee elsewhere in the
    /// pipeline.
    open spec fn load_pre(self, ctx: Context) -> bool {
        ctx.recovered_signer is Some || ctx.descriptor is Some
    }

    open spec fn load_rel(self, ctx: Context, post: Self) -> bool {
        &&& post.generating == self.generating
        &&& post.warning == self.warning
        &&& post.config_path == self.config_path
        &&& post.context == Some(ctx)
        &&& match ctx.recovered_signer {
            Some(signer) => {
                &&& post.hot_signer_fingerprint == signer
                &&& !post.hot_signer_is_not_used
            },
            None => {
                &&& post.hot_signer_fingerprint == self.hot_signer_fingerprint
                &&& match ctx.descriptor {
                    Some(desc) => post.hot_signer_is_not_used == !has_substring(
                        desc@,
                        self.hot_signer_fingerprint@,
                    ),
                    None => false,
                }
            },
        }
    }

    open spec fn load_cmd(self) -> Cmd {
        Cmd::NoOp
    }

    open spec fn view_pre(self) -> bool {
        match self.context {
            Some(ctx) => ctx.descriptor is Some,
            None => false,
        }
    }

    open spec fn view_spec(self) -> Screen {
        let ctx = self.context->0;
        Screen::Final {
            network: ctx.network,
            descriptor: ctx.descriptor->0,
            generating: self.generating,
            warning: self.warning,
            config_path: self.config_path,
            hot_signer: self.spec_displayed_signer(),
        }
    }

    fn update(&mut self, message: Message) -> (c: Cmd) {
        match message {
            Message::Installed(res) => {
                self.generating = false;
                match res {
                    Err(e) => {
                        self.config_path = None;
                        self.warning = Some(e);
                    },
                    Ok(path) => {
                        self.config_path = Some(path);
                    },
                }
                Cmd::NoOp
            },
            Message::Install => {
                self.generating = true;
                self.config_path = None;
                self.warning = None;
                Cmd::NoOp
            },
            _ => Cmd::NoOp,
        }
    }

    fn view(&self, progress: (usize, usize)) -> (v: ViewModel) {
        let ctx = match &self.context {
            Some(c) => c,
            None => vstd::pervasive::unreached(),
        };
        let descriptor = match &ctx.descriptor {
            Some(d) => d.clone(),
            None => vstd::pervasive::unreached(),
        };
        let warning = match &self.warning {
            Some(w) => Some(w.clone()),
            None => None,
        };
        let config_path = match &self.config_path {
            Some(p) => Some(p.clone()),
            None => None,
        };
        let hot_signer = if self.hot_signer_is_not_used {
            None
        } else {
            Some(self.hot_signer_fingerprint.clone())
        };
        ViewModel {
            current: progress.0,
            total: progress.1,
            screen: Screen::Final {
                network: ctx.network,
                descriptor,
                generating: self.generating,
                warning,
                config_path,
                hot_signer,
            },
        }
    }

    fn load_context(&mut self, ctx: &Context) {
        self.context = Some(ctx.clone());
        match &ctx.recovered_signer {
            Some(signer) => {
                self.hot_signer_fingerprint = signer.clone();
                self.hot_signer_is_not_used = false;
            },
            None => {
                match &ctx.descriptor {
                    Some(desc) => {
                        let referenced = contains_str(
                            desc.as_str(),
                            self.hot_signer_fingerprint.as_str(),
                        );
                        self.hot_signer_is_not_used = !referenced;
                    },
                    None => {
                        proof {
                            assert(false);
                        }
                    },
                }
            },
        }
    }

    fn can_load(&self, ctx: &Context) -> (r: bool) {
        match &ctx.recovered_signer {
            Some(_) => true,
            None => match &ctx.descriptor {
                Some(_) => true,
                None => false,
            },
        }
    }

    fn can_view(&self) -> (r: bool) {
        match &self.context {
            Some(c) => match &c.descriptor {
                Some(_) => true,
                None => false,
            },
            None => false,
        }
    }

    fn load(&self) -> (c: Cmd) {
        Cmd::NoOp
    }

    fn skip(&self, ctx: &Context) -> (r: bool) {
        false
    }

    fn apply(&mut self, ctx: &mut Context) -> (r: bool) {
        true
    }
}

} // verus!
