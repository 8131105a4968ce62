use vstd::prelude::*;
use crate::data::{freezes, pow10, TokenData};
use crate::descriptor::{creator_share, creators_model, descriptor_model, CreatorModel, MintDescriptor};
use crate::minter::{kind_of, step_kinds, Execution, Minter, Step, StepKind};

verus! {

/// The pipeline of each kind of request, step by step.
pub proof fn lemma_pipeline_per_variant(data: TokenData)
    ensures
        data matches TokenData::Fungible(p) && p.should_freeze_after_mint ==> step_kinds(data)
            == seq![StepKind::CreateMintAccount, StepKind::InitializeMint, StepKind::CreateTokenAccount, StepKind::MintTo, StepKind::FreezeAccount, StepKind::CreateMetadata],
        data matches TokenData::Fungible(p) && !p.should_freeze_after_mint ==> step_kinds(data)
            == seq![StepKind::CreateMintAccount, StepKind::InitializeMint, StepKind::CreateTokenAccount, StepKind::MintTo, StepKind::CreateMetadata],
        data is FungibleAsset ==> step_kinds(data)
            == seq![StepKind::CreateMintAccount, StepKind::InitializeMint, StepKind::CreateTokenAccount, StepKind::MintTo, StepKind::FreezeAccount, StepKind::CreateMetadata],
        data is NonFungible ==> step_kinds(data)
            == seq![StepKind::CreateMintAccount, StepKind::InitializeMint, StepKind::CreateTokenAccount, StepKind::MintTo, StepKind::FreezeAccount, StepKind::CreateMetadata, StepKind::CreateMasterEdition],
{
    if data is NonFungible {
        assert(step_kinds(data)
            =~= seq![StepKind::CreateMintAccount, StepKind::InitializeMint, StepKind::CreateTokenAccount, StepKind::MintTo, StepKind::FreezeAccount, StepKind::CreateMetadata, StepKind::CreateMasterEdition]);
    } else if freezes(data) {
        assert(step_kinds(data)
            =~= seq![StepKind::CreateMintAccount, StepKind::InitializeMint, StepKind::CreateTokenAccount, StepKind::MintTo, StepKind::FreezeAccount, StepKind::CreateMetadata]);
    } else {
        assert(step_kinds(data)
            =~= seq![StepKind::CreateMintAccount, StepKind::InitializeMint, StepKind::CreateTokenAccount, StepKind::MintTo, StepKind::CreateMetadata]);
    }
}

/// A currency is frozen exactly when its request asks for it; assets and
/// unique items are always frozen.
pub proof fn lemma_freeze_policy(data: TokenData)
    ensures
        step_kinds(data).contains(StepKind::FreezeAccount) <==> freezes(data),
        data matches TokenData::Fungible(p) ==> (freezes(data) <==> p.should_freeze_after_mint),
        !(data is Fungible) ==> freezes(data),
{
    lemma_pipeline_per_variant(data);
    if freezes(data) {
        assert(step_kinds(data)[4] == StepKind::FreezeAccount);
    }
}

/// The steps that a run hands to the ledger follow the pipeline in order, and
/// a run that succeeds has handed over the whole pipeline.
pub proof fn lemma_run_follows_pipeline<F: Fn(&Step) -> Result<(), u64>>(
    m: Minter,
    ledger: F,
    ex: Execution,
)
    requires
        m.executes(ledger, ex),
    ensures
        step_kinds(m.data).subrange(0, ex.performed@.len() as int) == ex.performed@.map_values(
            |s: Step| kind_of(s),
        ),
        ex.outcome is Ok ==> ex.performed@.map_values(|s: Step| kind_of(s)) == step_kinds(m.data),
{
    assert(step_kinds(m.data).subrange(0, ex.performed@.len() as int) =~= ex.performed@.map_values(
        |s: Step| kind_of(s),
    ));
    if ex.outcome is Ok {
        assert(step_kinds(m.data).subrange(0, ex.performed@.len() as int) =~= step_kinds(m.data));
    }
}

/// The units that a run issues: the supply times `10^decimals` for a
/// currency, the quantity for an asset, exactly one for a unique item.
pub proof fn lemma_mint_step_amount<F: Fn(&Step) -> Result<(), u64>>(
    m: Minter,
    ledger: F,
    ex: Execution,
    i: int,
)
    requires
        m.executes(ledger, ex),
        0 <= i < ex.performed@.len(),
        ex.performed@[i] is MintTo,
    ensures
        ex.performed@[i] matches Step::MintTo { amount, .. } && match m.data {
            TokenData::Fungible(p) => amount == p.initial_supply * pow10(p.decimals as nat),
            TokenData::FungibleAsset(p) => amount == p.quantity,
            TokenData::NonFungible(_) => amount == 1,
        },
{
    assert(kind_of(ex.performed@[i]) == StepKind::MintTo);
    assert(m.owes(ex.performed@[i]));
}

/// Projecting equal requests gives equal metadata records.
pub proof fn lemma_projection_deterministic(
    a: TokenData,
    b: TokenData,
    ra: MintDescriptor,
    rb: MintDescriptor,
)
    requires
        a == b,
        descriptor_model(a) == Some(ra@),
        descriptor_model(b) == Some(rb@),
    ensures
        ra@ == rb@,
{
}

/// The sum of the creators' shares.
pub open spec fn total_share(creators: Seq<CreatorModel>) -> int
    decreases creators.len(),
{
    if creators.len() == 0 {
        0
    } else {
        total_share(creators.drop_last()) + creators.last().share
    }
}

proof fn lemma_total_of_equal_shares(creators: Seq<CreatorModel>, share: u8)
    requires
        forall|i: int| 0 <= i < creators.len() ==> (#[trigger] creators[i]).share == share,
    ensures
        total_share(creators) == creators.len() * share,
    decreases creators.len(),
{
    if creators.len() > 0 {
        let rest = creators.drop_last();
        assert forall|i: int| 0 <= i < rest.len() implies (#[trigger] rest[i]).share == share by {
            assert(rest[i] == creators[i]);
        }
        lemma_total_of_equal_shares(rest, share);
        assert(total_share(creators) == (creators.len() - 1) * share + share);
        assert((creators.len() - 1) * share + share == creators.len() * share) by (nonlinear_arith);
    }
}

/// Each of `n` creators gets `floor(100 / n)` percent, so the shares add up
/// to `n * floor(100 / n)`, which is at most 100; the remainder is dropped.
pub proof fn lemma_creator_shares(addresses: Seq<String>)
    ensures
        forall|i: int|
            0 <= i < addresses.len() ==> (#[trigger] creators_model(addresses)[i]).share as int
                == 100int / addresses.len() as int,
        total_share(creators_model(addresses)) == addresses.len() * creator_share(
            addresses.len() as int,
        ),
        total_share(creators_model(addresses)) <= 100,
{
    let n = addresses.len() as int;
    let c = creators_model(addresses);
    let share = creator_share(n);
    lemma_total_of_equal_shares(c, share);
    if n > 0 {
        assert(n * (100int / n) <= 100) by (nonlinear_arith)
            requires
                n > 0,
        ;
        assert(0 <= 100int / n <= 100) by (nonlinear_arith)
            requires
                n > 0,
        ;
    }
}

} // verus!
