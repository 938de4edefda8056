//! The node-connection step: two text fields (credential-file path and
//! network address), an advisory connectivity probe, and the commit of
//! a connection record into the shared context.

use vstd::prelude::*;

use crate::addr::{is_valid_socket_addr, valid_socket_addr};
use crate::context::{BitcoindConfig, Context};
use crate::form::FormValue;
use crate::message::{Cmd, DefineBitcoind as Msg, Message, ProbeError};
use crate::paths::{
    bitcoind_default_address, bitcoind_default_cookie_path, is_valid_cookie_path,
    spec_default_address, spec_default_cookie_path, valid_cookie_path,
};
use crate::step::Step;
use crate::view::{Screen, ViewModel};

verus! {

pub struct DefineBitcoind {
    pub cookie_path: FormValue,
    pub address: FormValue,
    /// Outcome of the last probe: `None` until one finishes, and
    /// cleared whenever either field is edited.
    pub is_running: Option<Result<(), ProbeError>>,
}

impl DefineBitcoind {
    pub fn new() -> (r: Self)
        ensures
            r.cookie_path.value@ == Seq::<char>::empty(),
            r.cookie_path.valid,
            r.address.value@ == Seq::<char>::empty(),
            r.address.valid,
            r.is_running is None,
    {
        DefineBitcoind {
            cookie_path: FormValue::new(),
            address: FormValue::new(),
            is_running: None,
        }
    }

    /// The probe command for the current field values.
    pub open spec fn spec_ping(self) -> Cmd {
        Cmd::Probe { cookie_path: self.cookie_path.value, address: self.address.value }
    }

    /// Asks the hosting shell to read the credential file and issue the
    /// health-check call; the outcome comes back as a
    /// `PingBitcoindResult` message.
    pub fn ping(&self) -> (c: Cmd)
        ensures
            c == self.spec_ping(),
    {
        Cmd::Probe {
            cookie_path: self.cookie_path.value.clone(),
            address: self.address.value.clone(),
        }
    }

    fn clone_is_running(&self) -> (r: Option<Result<(), ProbeError>>)
        ensures
            r == self.is_running,
    {
        match &self.is_running {
            None => None,
            Some(res) => match res {
                Ok(u) => {
                    proof {
                        assert(self.is_running == Some(Result::<(), ProbeError>::Ok(())));
                    }
                    Some(Ok(()))
                },
                Err(e) => Some(Err(e.clone())),
            },
        }
    }
}

impl Default for DefineBitcoind {
    fn default() -> (r: Self)
        ensures
            r.cookie_path.value@ == Seq::<char>::empty(),
            r.cookie_path.valid,
            r.address.value@ == Seq::<char>::empty(),
            r.address.valid,
            r.is_running is None,
    {
        DefineBitcoind::new()
    }
}

impl Step for DefineBitcoind {
    open spec fn skip_spec(self, ctx: Context) -> bool {
        false
    }

    open spec fn apply_ok(self, ctx: Context) -> bool {
        valid_cookie_path(self.cookie_path.value@) && valid_socket_addr(self.address.value@)
    }

    open spec fn apply_to(self, ctx: Context) -> (Self, Context) {
        let path_ok = valid_cookie_path(self.cookie_path.value@);
        let addr_ok = valid_socket_addr(self.address.value@);
        if path_ok && addr_ok {
            (
                self,
                Context {
                    network: ctx.network,
                    bitcoind_config: Some(
                        BitcoindConfig {
                            cookie_path: self.cookie_path.value,
                            addr: self.address.value,
                        },
                    ),
                    descriptor: ctx.descriptor,
                    recovered_signer: ctx.recovered_signer,
                },
            )
        } else {
            (
                DefineBitcoind {
                    cookie_path: FormValue {
                        value: self.cookie_path.value,
                        valid: if path_ok {
                            self.cookie_path.valid
                        } else {
                            false
                        },
                    },
                    address: FormValue {
                        value: self.address.value,
                        valid: if addr_ok {
                            self.address.valid
                        } else {
                            false
                        },
                    },
                    is_running: self.is_running,
                },
                ctx,
            )
        }
    }

    open spec fn update_spec(self, m: Message) -> (Self, Cmd) {
        match m {
            Message::DefineBitcoind(msg) => match msg {
                Msg::PingBitcoind => {
                    let cleared = DefineBitcoind {
                        cookie_path: self.cookie_path,
                        address: self.address,
                        is_running: None,
                    };
                    (cleared, cleared.spec_ping())
                },
                Msg::PingBitcoindResult(res) => (
                    DefineBitcoind {
                        cookie_path: self.cookie_path,
                        address: self.address,
                        is_running: Some(res),
                    },
                    Cmd::NoOp,
                ),
                Msg::AddressEdited(address) => (
                    DefineBitcoind {
                        cookie_path: self.cookie_path,
                        address: FormValue { value: address, valid: true },
                        is_running: None,
                    },
                    Cmd::NoOp,
                ),
                Msg::CookiePathEdited(path) => (
                    DefineBitcoind {
                        cookie_path: FormValue { value: path, valid: self.cookie_path.valid },
                        address: FormValue { value: self.address.value, valid: true },
                        is_running: None,
                    },
                    Cmd::NoOp,
                ),
            },
            _ => (self, Cmd::NoOp),
        }
    }

    open spec fn load_pre(self, ctx: Context) -> bool {
        true
    }

    open spec fn load_rel(self, ctx: Context, post: Self) -> bool {
        &&& post.is_running == self.is_running
        &&& post.cookie_path.valid == self.cookie_path.valid
        &&& post.address.valid == self.address.valid
        &&& (self.cookie_path.value@.len() > 0 ==> post.cookie_path.value == self.cookie_path.value)
        &&& (self.cookie_path.value@.len() == 0 ==> post.cookie_path.value@
            == Seq::<char>::empty() || (exists|h: Seq<char>|
            post.cookie_path.value@ == spec_default_cookie_path(h, ctx.network)))
        &&& (self.address.value@.len() > 0 ==> post.address.value == self.address.value)
        &&& (self.address.value@.len() == 0 ==> post.address.value@ == spec_default_address(
            ctx.network,
        ))
    }

    open spec fn load_cmd(self) -> Cmd {
        self.spec_ping()
    }

    open spec fn view_pre(self) -> bool {
        true
    }

    open spec fn view_spec(self) -> Screen {
        Screen::DefineBitcoind {
            cookie_path: self.cookie_path,
            address: self.address,
            is_running: self.is_running,
        }
    }

    fn update(&mut self, message: Message) -> (c: Cmd) {
        match message {
            Message::DefineBitcoind(msg) => match msg {
                Msg::PingBitcoind => {
                    self.is_running = None;
                    self.ping()
                },
                Msg::PingBitcoindResult(res) => {
                    self.is_running = Some(res);
                    Cmd::NoOp
                },
                Msg::AddressEdited(address) => {
                    self.is_running = None;
                    self.address.value = address;
                    self.address.valid = true;
                    Cmd::NoOp
                },
                Msg::CookiePathEdited(path) => {
                    self.is_running = None;
                    self.cookie_path.value = path;
                    self.address.valid = true;
                    Cmd::NoOp
                },
            },
            _ => Cmd::NoOp,
        }
    }

    fn view(&self, progress: (usize, usize)) -> (v: ViewModel) {
        ViewModel {
            current: progress.0,
            total: progress.1,
            screen: Screen::DefineBitcoind {
                cookie_path: self.cookie_path.clone(),
                address: self.address.clone(),
                is_running: self.clone_is_running(),
            },
        }
    }

    fn load_context(&mut self, ctx: &Context) {
        if self.cookie_path.value.as_str().is_empty() {
            match bitcoind_default_cookie_path(ctx.network) {
                Some(p) => {
                    self.cookie_path.value = p;
                },
                None => {
                    self.cookie_path.value = String::new();
                },
            }
        }
        if self.address.value.as_str().is_empty() {
            self.address.value = bitcoind_default_address(ctx.network);
        }
    }

    fn can_load(&self, ctx: &Context) -> (r: bool) {
        true
    }

    fn can_view(&self) -> (r: bool) {
        true
    }

    fn load(&self) -> (c: Cmd) {
        self.ping()
    }

    fn skip(&self, ctx: &Context) -> (r: bool) {
        false
    }

    fn apply(&mut self, ctx: &mut Context) -> (r: bool) {
        let path_ok = is_valid_cookie_path(self.cookie_path.value.as_str());
        let addr_ok = is_valid_socket_addr(self.address.value.as_str());
        if path_ok && addr_ok {
            ctx.bitcoind_config = Some(
                BitcoindConfig {
                    cookie_path: self.cookie_path.value.clone(),
                    addr: self.address.value.clone(),
                },
            );
            true
        } else {
            if !path_ok {
                self.cookie_path.valid = false;
            }
            if !addr_ok {
                self.address.valid = false;
            }
            false
        }
    }
}

} // verus!
