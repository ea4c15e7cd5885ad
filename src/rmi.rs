//! Realm management commands: their handlers and the table that dispatches
//! them.
use vstd::prelude::*;

use crate::context::{Context, MapOp, MemoryMap};
use crate::granule::{state_of, valid_id, with_state, Granule, GranuleState, GranuleTable};
use crate::rd::Rd;

verus! {

/// Command: mark a realm active.
pub const REALM_ACTIVATE: u64 = 0xc400_0157;

/// Command: create a realm.
pub const REALM_CREATE: u64 = 0xc400_0158;

/// Command: destroy a realm.
pub const REALM_DESTROY: u64 = 0xc400_0159;

/// Command: query the number of auxiliary granules of a realm execution context.
pub const REC_AUX_COUNT: u64 = 0xc400_0167;

/// Status: the command succeeded.
pub const SUCCESS: u64 = 0;

/// Status: an argument was refused.
pub const ERROR_INPUT: u64 = 1;

/// Status: the command failed for another reason.
pub const RET_FAIL: u64 = 0x100;

/// Largest number of auxiliary granules a realm execution context may need.
pub const MAX_REC_AUX_GRANULES: u64 = 16;

/// The service that allocates and releases realms.
pub trait RealmDriver {
    /// Allocates a realm and returns its id.
    fn create_realm(&self) -> Result<u64, ()>;

    /// Releases the realm `id`.
    fn remove(&self, id: u64) -> Result<(), ()>;
}

/// Return slots after a command that wrote only the status `code`.
pub open spec fn status_only(pre: Seq<u64>, code: u64) -> Seq<u64> {
    pre.update(0, code)
}

/// Effect of `REALM_ACTIVATE`.
pub open spec fn activated(pre: Context, post: Context) -> bool {
    &&& post.wf()
    &&& post.args() == pre.args()
    &&& post.rets() == status_only(pre.rets(), SUCCESS)
}

/// Effect of `REC_AUX_COUNT`.
pub open spec fn aux_counted(pre: Context, post: Context) -> bool {
    &&& post.wf()
    &&& post.args() == pre.args()
    &&& post.rets() == pre.rets().update(0, SUCCESS).update(1, MAX_REC_AUX_GRANULES)
}

/// Whether `REALM_CREATE` can put a realm descriptor in granule `g` of `t`:
/// the granule is undelegated or delegated.
pub open spec fn can_host_rd(t: Seq<Granule>, g: u64) -> bool {
    valid_id(t, g) && (state_of(t, g) == GranuleState::Undelegated || state_of(t, g)
        == GranuleState::Delegated)
}

/// Effect of `REALM_CREATE`: argument 0 names the granule for the realm
/// descriptor, argument 1 the parameter block, which is mapped once and
/// unmapped once. The granule must be undelegated or delegated. On success it
/// holds the descriptor of the realm whose id is returned in slot 1; where the
/// driver allocates no realm, nothing changes but the status.
pub open spec fn created(
    pre: Context,
    post: Context,
    t0: Seq<Granule>,
    t1: Seq<Granule>,
    m0: Seq<MapOp>,
    m1: Seq<MapOp>,
) -> bool {
    let g = pre.args()[0];
    let p = pre.args()[1];
    &&& post.wf()
    &&& post.args() == pre.args()
    &&& m1 == m0 + seq![MapOp::Install(p, false), MapOp::Remove(p)]
    &&& if can_host_rd(t0, g) {
        ||| post.rets() == status_only(pre.rets(), SUCCESS).update(1, post.rets()[1]) && t1
            == t0.update(g as int, Granule { state: GranuleState::RD, realm: post.rets()[1] })
        ||| post.rets() == status_only(pre.rets(), RET_FAIL) && t1 == t0
    } else {
        post.rets() == status_only(pre.rets(), ERROR_INPUT) && t1 == t0
    }
}

/// Effect of `REALM_DESTROY`: argument 0 names the granule of the realm
/// descriptor. The descriptor is torn down, the realm released by the driver
/// and the granule given back to the normal world; the status says whether the
/// driver released the realm.
pub open spec fn destroyed(pre: Context, post: Context, t0: Seq<Granule>, t1: Seq<Granule>) -> bool {
    let g = pre.args()[0];
    &&& post.wf()
    &&& post.args() == pre.args()
    &&& if valid_id(t0, g) && state_of(t0, g) == GranuleState::RD {
        &&& t1 == with_state(t0, g, GranuleState::Undelegated)
        &&& post.rets() == status_only(pre.rets(), SUCCESS) || post.rets() == status_only(
            pre.rets(),
            RET_FAIL,
        )
    } else {
        post.rets() == status_only(pre.rets(), ERROR_INPUT) && t1 == t0
    }
}

/// `REALM_ACTIVATE`: reports success.
pub fn realm_activate(ctx: &mut Context)
    requires
        old(ctx).wf(),
    ensures
        activated(*old(ctx), *final(ctx)),
{
    ctx.set_ret(0, SUCCESS);
}

/// `REC_AUX_COUNT`: reports the number of auxiliary granules.
pub fn rec_aux_count(ctx: &mut Context)
    requires
        old(ctx).wf(),
    ensures
        aux_counted(*old(ctx), *final(ctx)),
{
    ctx.set_ret(0, SUCCESS);
    ctx.set_ret(1, MAX_REC_AUX_GRANULES);
}

/// Effect of the first step of `REALM_CREATE`. A granule that can hold a
/// descriptor is left delegated, and the state it started in is returned: the
/// driver is then to be asked for a realm. Any other granule gives
/// `ERROR_INPUT` and `None`: the driver is not to be asked.
pub open spec fn create_begun(
    pre: Context,
    post: Context,
    t0: Seq<Granule>,
    t1: Seq<Granule>,
    r: Option<GranuleState>,
) -> bool {
    let g = pre.args()[0];
    &&& post.wf()
    &&& post.args() == pre.args()
    &&& if can_host_rd(t0, g) {
        &&& r == Some(state_of(t0, g))
        &&& post.rets() == pre.rets()
        &&& t1 == with_state(t0, g, GranuleState::Delegated)
    } else {
        &&& r is None
        &&& post.rets() == status_only(pre.rets(), ERROR_INPUT)
        &&& t1 == t0
    }
}

/// First step of `REALM_CREATE`: checks granule `ctx.arg[0]` and delegates
/// it where it is undelegated.
pub fn begin_realm_create(ctx: &mut Context, granules: &mut GranuleTable) -> (r: Option<
    GranuleState,
>)
    requires
        old(ctx).wf(),
    ensures
        create_begun(*old(ctx), *final(ctx), old(granules)@, final(granules)@, r),
{
    let g = ctx.arg(0);
    match granules.get(g) {
        Some(entry) => {
            if entry.state == GranuleState::Delegated {
                assert(granules@ =~= with_state(granules@, g, GranuleState::Delegated));
                Some(GranuleState::Delegated)
            } else if entry.state == GranuleState::Undelegated {
                let step = granules.transition(
                    g,
                    GranuleState::Undelegated,
                    GranuleState::Delegated,
                );
                assert(step is Ok);
                Some(GranuleState::Undelegated)
            } else {
                ctx.set_ret(0, ERROR_INPUT);
                None
            }
        },
        None => {
            ctx.set_ret(0, ERROR_INPUT);
            None
        },
    }
}

/// Effect of the last step of `REALM_CREATE` on a granule `g` that is now
/// delegated and started in `prior`, given the driver's answer `allocated`.
pub open spec fn create_completed(
    pre: Context,
    post: Context,
    t0: Seq<Granule>,
    t1: Seq<Granule>,
    prior: GranuleState,
    allocated: Result<u64, ()>,
) -> bool {
    let g = pre.args()[0];
    &&& post.wf()
    &&& post.args() == pre.args()
    &&& match allocated {
        Ok(id) => post.rets() == status_only(pre.rets(), SUCCESS).update(1, id) && t1 == t0.update(
            g as int,
            Granule { state: GranuleState::RD, realm: id },
        ),
        Err(()) => post.rets() == status_only(pre.rets(), RET_FAIL) && t1 == with_state(
            t0,
            g,
            prior,
        ),
    }
}

/// Last step of `REALM_CREATE`, once granule `ctx.arg[0]` is delegated:
/// with a realm id from the driver the granule becomes that realm's
/// descriptor and the id is returned; without one the granule goes back to
/// `prior`, the state it started in, and the command fails.
pub fn complete_realm_create(
    ctx: &mut Context,
    granules: &mut GranuleTable,
    prior: GranuleState,
    allocated: Result<u64, ()>,
)
    requires
        old(ctx).wf(),
        valid_id(old(granules)@, old(ctx).args()[0]),
        state_of(old(granules)@, old(ctx).args()[0]) == GranuleState::Delegated,
        prior == GranuleState::Undelegated || prior == GranuleState::Delegated,
    ensures
        create_completed(
            *old(ctx),
            *final(ctx),
            old(granules)@,
            final(granules)@,
            prior,
            allocated,
        ),
{
    let g = ctx.arg(0);
    match allocated {
        Ok(id) => {
            let rd = Rd::new(granules, g, id);
            assert(rd is Ok);
            ctx.set_ret(0, SUCCESS);
            ctx.set_ret(1, id);
        },
        Err(()) => {
            if prior == GranuleState::Undelegated {
                let back = granules.transition(
                    g,
                    GranuleState::Delegated,
                    GranuleState::Undelegated,
                );
                assert(back is Ok);
            } else {
                assert(granules@ =~= with_state(granules@, g, GranuleState::Delegated));
            }
            ctx.set_ret(0, RET_FAIL);
        },
    }
}

/// `REALM_CREATE`. The driver is asked for a realm only when the granule
/// check of `begin_realm_create` passes.
pub fn realm_create<D: RealmDriver>(
    ctx: &mut Context,
    granules: &mut GranuleTable,
    mm: &mut MemoryMap,
    rmi: &D,
)
    requires
        old(ctx).wf(),
    ensures
        created(*old(ctx), *final(ctx), old(granules)@, final(granules)@, old(mm)@, final(mm)@),
{
    let g = ctx.arg(0);
    let params = ctx.arg(1);
    mm.map(params, false);
    match begin_realm_create(ctx, granules) {
        None => {},
        Some(prior) => {
            let allocated = rmi.create_realm();
            complete_realm_create(ctx, granules, prior, allocated);
            proof {
                if let Ok(id) = allocated {
                    assert(granules@ =~= old(granules)@.update(
                        g as int,
                        Granule { state: GranuleState::RD, realm: id },
                    ));
                } else {
                    assert(granules@ =~= old(granules)@);
                }
            }
        },
    }
    mm.unmap(params);
    assert(mm@ =~= old(mm)@ + seq![MapOp::Install(params, false), MapOp::Remove(params)]);
}

/// Effect of the first step of `REALM_DESTROY`. Where granule `g` holds a
/// descriptor, the descriptor is torn down, the granule is left delegated, and
/// the id of its realm is returned for the driver to release. Any other
/// granule gives `ERROR_INPUT` and `None`: the driver is not to be asked.
pub open spec fn destroy_begun(
    pre: Context,
    post: Context,
    t0: Seq<Granule>,
    t1: Seq<Granule>,
    r: Option<u64>,
) -> bool {
    let g = pre.args()[0];
    &&& post.wf()
    &&& post.args() == pre.args()
    &&& if valid_id(t0, g) && state_of(t0, g) == GranuleState::RD {
        &&& r == Some(t0[g as int].realm)
        &&& post.rets() == pre.rets()
        &&& t1 == with_state(t0, g, GranuleState::Delegated)
    } else {
        &&& r is None
        &&& post.rets() == status_only(pre.rets(), ERROR_INPUT)
        &&& t1 == t0
    }
}

/// First step of `REALM_DESTROY`: tears down the descriptor in granule
/// `ctx.arg[0]` and returns the id of its realm.
pub fn begin_realm_destroy(ctx: &mut Context, granules: &mut GranuleTable) -> (r: Option<u64>)
    requires
        old(ctx).wf(),
    ensures
        destroy_begun(*old(ctx), *final(ctx), old(granules)@, final(granules)@, r),
{
    let g = ctx.arg(0);
    match Rd::into(granules, g) {
        Ok(rd) => Some(rd.destroy(granules)),
        Err(_) => {
            ctx.set_ret(0, ERROR_INPUT);
            None
        },
    }
}

/// Effect of the last step of `REALM_DESTROY` on a granule `g` that is
/// delegated, given the driver's answer `removed`.
pub open spec fn destroy_completed(
    pre: Context,
    post: Context,
    t0: Seq<Granule>,
    t1: Seq<Granule>,
    removed: Result<(), ()>,
) -> bool {
    &&& post.wf()
    &&& post.args() == pre.args()
    &&& t1 == with_state(t0, pre.args()[0], GranuleState::Undelegated)
    &&& post.rets() == status_only(pre.rets(), if removed is Ok { SUCCESS } else { RET_FAIL })
}

/// Last step of `REALM_DESTROY`, once the descriptor in granule
/// `ctx.arg[0]` is torn down and the driver asked to release the realm: the
/// granule goes back to the normal world, and the status says whether the
/// driver released the realm.
pub fn complete_realm_destroy(ctx: &mut Context, granules: &mut GranuleTable, removed: Result<(), ()>)
    requires
        old(ctx).wf(),
        valid_id(old(granules)@, old(ctx).args()[0]),
        state_of(old(granules)@, old(ctx).args()[0]) == GranuleState::Delegated,
    ensures
        destroy_completed(*old(ctx), *final(ctx), old(granules)@, final(granules)@, removed),
{
    let g = ctx.arg(0);
    let released = granules.transition(g, GranuleState::Delegated, GranuleState::Undelegated);
    assert(released is Ok);
    match removed {
        Ok(()) => ctx.set_ret(0, SUCCESS),
        Err(()) => ctx.set_ret(0, RET_FAIL),
    }
}

/// `REALM_DESTROY`. The descriptor is torn down by `begin_realm_destroy`,
/// the driver releases the realm by the id that step returns, and only then
/// does `complete_realm_destroy` give the granule back to the normal world.
pub fn realm_destroy<D: RealmDriver>(ctx: &mut Context, granules: &mut GranuleTable, rmi: &D)
    requires
        old(ctx).wf(),
    ensures
        destroyed(*old(ctx), *final(ctx), old(granules)@, final(granules)@),
{
    let g = ctx.arg(0);
    match begin_realm_destroy(ctx, granules) {
        None => {},
        Some(id) => {
            let removed = rmi.remove(id);
            complete_realm_destroy(ctx, granules, removed);
            assert(granules@ =~= with_state(old(granules)@, g, GranuleState::Undelegated));
        },
    }
}


} // verus!

verus! {

/// Whether `cmd` is a command this monitor has a handler for.
pub open spec fn is_command(cmd: u64) -> bool {
    cmd == REALM_ACTIVATE || cmd == REALM_CREATE || cmd == REC_AUX_COUNT || cmd == REALM_DESTROY
}

/// The commands registered for dispatch.
#[derive(Debug)]
pub struct Mainloop {
    commands: Vec<u64>,
}

impl View for Mainloop {
    type V = Seq<u64>;

    closed spec fn view(&self) -> Seq<u64> {
        self.commands@
    }
}

impl Mainloop {
    /// Every registered command has a handler.
    pub open spec fn wf(&self) -> bool {
        forall|i: int| 0 <= i < self@.len() ==> is_command(#[trigger] self@[i])
    }

    /// A table with no command registered.
    pub fn new() -> (r: Mainloop)
        ensures
            r@ == Seq::<u64>::empty(),
            r.wf(),
    {
        Mainloop { commands: Vec::new() }
    }

    fn listen(&mut self, cmd: u64)
        requires
            old(self).wf(),
            is_command(cmd),
        ensures
            final(self)@ == old(self)@.push(cmd),
            final(self).wf(),
    {
        self.commands.push(cmd);
        assert forall|i: int| 0 <= i < self@.len() implies is_command(#[trigger] self@[i]) by {
            if i < old(self)@.len() {
                assert(self@[i] == old(self)@[i]);
            }
        }
    }

    /// Whether `cmd` is registered.
    pub fn is_registered(&self, cmd: u64) -> (r: bool)
        ensures
            r == self@.contains(cmd),
    {
        let mut i: usize = 0;
        while i < self.commands.len()
            invariant
                i <= self@.len(),
                forall|j: int| 0 <= j < i ==> self@[j] != cmd,
            decreases self@.len() - i,
        {
            if self.commands[i] == cmd {
                return true;
            }
            i = i + 1;
        }
        false
    }

    /// Runs the handler of `cmd`, if it is registered, and says whether it
    /// ran. Where it did not, nothing changes.
    pub fn dispatch<D: RealmDriver>(
        &self,
        cmd: u64,
        ctx: &mut Context,
        granules: &mut GranuleTable,
        mm: &mut MemoryMap,
        rmi: &D,
    ) -> (r: bool)
        requires
            self.wf(),
            old(ctx).wf(),
        ensures
            r == self@.contains(cmd),
            !r ==> *final(ctx) == *old(ctx) && final(granules)@ == old(granules)@ && final(mm)@
                == old(mm)@,
            r && cmd == REALM_ACTIVATE ==> activated(*old(ctx), *final(ctx)) && final(granules)@
                == old(granules)@ && final(mm)@ == old(mm)@,
            r && cmd == REC_AUX_COUNT ==> aux_counted(*old(ctx), *final(ctx)) && final(granules)@
                == old(granules)@ && final(mm)@ == old(mm)@,
            r && cmd == REALM_CREATE ==> created(
                *old(ctx),
                *final(ctx),
                old(granules)@,
                final(granules)@,
                old(mm)@,
                final(mm)@,
            ),
            r && cmd == REALM_DESTROY ==> destroyed(
                *old(ctx),
                *final(ctx),
                old(granules)@,
                final(granules)@,
            ) && final(mm)@ == old(mm)@,
    {
        if !self.is_registered(cmd) {
            return false;
        }
        if cmd == REALM_ACTIVATE {
            realm_activate(ctx);
        } else if cmd == REALM_CREATE {
            realm_create(ctx, granules, mm, rmi);
        } else if cmd == REC_AUX_COUNT {
            rec_aux_count(ctx);
        } else {
            realm_destroy(ctx, granules, rmi);
        }
        true
    }
}

/// Registers the handlers of the realm commands.
pub fn set_event_handler(mainloop: &mut Mainloop)
    requires
        old(mainloop).wf(),
    ensures
        final(mainloop).wf(),
        final(mainloop)@ == old(mainloop)@ + seq![
            REALM_ACTIVATE,
            REALM_CREATE,
            REC_AUX_COUNT,
            REALM_DESTROY,
        ],
{
    mainloop.listen(REALM_ACTIVATE);
    mainloop.listen(REALM_CREATE);
    mainloop.listen(REC_AUX_COUNT);
    mainloop.listen(REALM_DESTROY);
    assert(mainloop@ =~= old(mainloop)@ + seq![
        REALM_ACTIVATE,
        REALM_CREATE,
        REC_AUX_COUNT,
        REALM_DESTROY,
    ]);
}

/// After a successful `REALM_DESTROY` the granule is undelegated: neither
/// `Rd::into`, which needs it in `RD`, nor `Rd::new`, which needs it
/// delegated, can make a handle over it again.
pub proof fn lemma_destroy_releases_granule(
    pre: Context,
    post: Context,
    t0: Seq<Granule>,
    t1: Seq<Granule>,
)
    requires
        pre.wf(),
        destroyed(pre, post, t0, t1),
        post.rets()[0] == SUCCESS,
    ensures
        valid_id(t1, pre.args()[0]),
        state_of(t1, pre.args()[0]) == GranuleState::Undelegated,
        state_of(t1, pre.args()[0]) != GranuleState::RD,
        state_of(t1, pre.args()[0]) != GranuleState::Delegated,
{
}

/// `REALM_CREATE` maps its parameter block once and unmaps it exactly once,
/// as its last request, whichever way it ends.
pub proof fn lemma_create_unmaps_params(
    pre: Context,
    post: Context,
    t0: Seq<Granule>,
    t1: Seq<Granule>,
    m0: Seq<MapOp>,
    m1: Seq<MapOp>,
)
    requires
        pre.wf(),
        created(pre, post, t0, t1, m0, m1),
    ensures
        m1.len() == m0.len() + 2,
        m1.subrange(0, m0.len() as int) == m0,
        m1[m0.len() as int] == MapOp::Install(pre.args()[1], false),
        m1.last() == MapOp::Remove(pre.args()[1]),
        forall|i: int|
            m0.len() <= i < m1.len() && #[trigger] m1[i] == MapOp::Remove(pre.args()[1]) ==> i
                == m1.len() - 1,
{
    assert(m1.subrange(0, m0.len() as int) =~= m0);
}

} // verus!
