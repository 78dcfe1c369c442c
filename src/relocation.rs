use vstd::prelude::*;
use crate::effects::Effect;
use crate::state::Key;

verus! {

/// Hands the configuration to the accelerated execution venue; `payer` pays
/// for the relocation.
pub fn delegate_config_handler(payer: Key) -> (r: Vec<Effect>)
    ensures
        r@ == seq![Effect::DelegateConfig { payer }],
{
    let fx = vec![Effect::DelegateConfig { payer }];
    proof {
        assert(fx@ =~= seq![Effect::DelegateConfig { payer }]);
    }
    fx
}

/// Flushes the configuration's latest state and takes it back from the
/// accelerated execution venue; `payer` pays for the commit.
pub fn undelegate_config_handler(payer: Key) -> (r: Vec<Effect>)
    ensures
        r@ == seq![Effect::CommitAndUndelegateConfig { payer }],
{
    let fx = vec![Effect::CommitAndUndelegateConfig { payer }];
    proof {
        assert(fx@ =~= seq![Effect::CommitAndUndelegateConfig { payer }]);
    }
    fx
}

} // verus!
