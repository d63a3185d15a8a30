use vstd::prelude::*;

use crate::account_type::AccountType;
use crate::pubkey::Pubkey;

verus! {

/// The seed literal of the configuration singleton: the bytes of "config".
pub open spec fn lit_config() -> Seq<u8> {
    seq![99u8, 111u8, 110u8, 102u8, 105u8, 103u8]
}

/// The seed literal of a service entity: the bytes of "avs".
pub open spec fn lit_avs() -> Seq<u8> {
    seq![97u8, 118u8, 115u8]
}

/// The seed literal of an operator entity: the bytes of "operator".
pub open spec fn lit_operator() -> Seq<u8> {
    seq![111u8, 112u8, 101u8, 114u8, 97u8, 116u8, 111u8, 114u8]
}

/// The seed literal of a service-vault edge: the bytes of "avs_vault".
pub open spec fn lit_avs_vault() -> Seq<u8> {
    seq![97u8, 118u8, 115u8, 95u8, 118u8, 97u8, 117u8, 108u8, 116u8]
}

/// The seed literal of a service-operator edge: the bytes of "avs_operator".
pub open spec fn lit_avs_operator() -> Seq<u8> {
    seq![97u8, 118u8, 115u8, 95u8, 111u8, 112u8, 101u8, 114u8, 97u8, 116u8, 111u8, 114u8]
}

/// The seed literal of a service-vault-slasher edge: the bytes of
/// "avs_vault_slasher".
pub open spec fn lit_avs_vault_slasher() -> Seq<u8> {
    seq![
        97u8, 118u8, 115u8, 95u8, 118u8, 97u8, 117u8, 108u8, 116u8, 95u8, 115u8, 108u8, 97u8,
        115u8, 104u8, 101u8, 114u8,
    ]
}

/// The seed literal of an operator-vault edge: the bytes of "operator_vault".
pub open spec fn lit_operator_vault() -> Seq<u8> {
    seq![
        111u8, 112u8, 101u8, 114u8, 97u8, 116u8, 111u8, 114u8, 95u8, 118u8, 97u8, 117u8, 108u8,
        116u8,
    ]
}

/// The seed literal of an operator-service edge: the bytes of "operator_avs".
pub open spec fn lit_operator_avs() -> Seq<u8> {
    seq![111u8, 112u8, 101u8, 114u8, 97u8, 116u8, 111u8, 114u8, 95u8, 97u8, 118u8, 115u8]
}

/// The seed literal a record kind derives its address under.
pub open spec fn spec_kind_literal(t: AccountType) -> Seq<u8> {
    match t {
        AccountType::Config => lit_config(),
        AccountType::Avs => lit_avs(),
        AccountType::Operator => lit_operator(),
        AccountType::AvsVaultTicket => lit_avs_vault(),
        AccountType::AvsOperatorTicket => lit_avs_operator(),
        AccountType::AvsVaultSlasherTicket => lit_avs_vault_slasher(),
        AccountType::OperatorVaultTicket => lit_operator_vault(),
        AccountType::OperatorAvsTicket => lit_operator_avs(),
    }
}

/// The seed literal of `t` as plain bytes.
pub fn kind_literal(t: AccountType) -> (r: Vec<u8>)
    ensures
        r@ == spec_kind_literal(t),
{
    let mut v: Vec<u8> = Vec::new();
    match t {
        AccountType::Config => {
            v.push(99);
            v.push(111);
            v.push(110);
            v.push(102);
            v.push(105);
            v.push(103);
            proof {
                assert(v@ =~= lit_config());
            }
        },
        AccountType::Avs => {
            v.push(97);
            v.push(118);
            v.push(115);
            proof {
                assert(v@ =~= lit_avs());
            }
        },
        AccountType::Operator => {
            v.push(111);
            v.push(112);
            v.push(101);
            v.push(114);
            v.push(97);
            v.push(116);
            v.push(111);
            v.push(114);
            proof {
                assert(v@ =~= lit_operator());
            }
        },
        AccountType::AvsVaultTicket => {
            v.push(97);
            v.push(118);
            v.push(115);
            v.push(95);
            v.push(118);
            v.push(97);
            v.push(117);
            v.push(108);
            v.push(116);
            proof {
                assert(v@ =~= lit_avs_vault());
            }
        },
        AccountType::AvsOperatorTicket => {
            v.push(97);
            v.push(118);
            v.push(115);
            v.push(95);
            v.push(111);
            v.push(112);
            v.push(101);
            v.push(114);
            v.push(97);
            v.push(116);
            v.push(111);
            v.push(114);
            proof {
                assert(v@ =~= lit_avs_operator());
            }
        },
        AccountType::AvsVaultSlasherTicket => {
            v.push(97);
            v.push(118);
            v.push(115);
            v.push(95);
            v.push(118);
            v.push(97);
            v.push(117);
            v.push(108);
            v.push(116);
            v.push(95);
            v.push(115);
            v.push(108);
            v.push(97);
            v.push(115);
            v.push(104);
            v.push(101);
            v.push(114);
            proof {
                assert(v@ =~= lit_avs_vault_slasher());
            }
        },
        AccountType::OperatorVaultTicket => {
            v.push(111);
            v.push(112);
            v.push(101);
            v.push(114);
            v.push(97);
            v.push(116);
            v.push(111);
            v.push(114);
            v.push(95);
            v.push(118);
            v.push(97);
            v.push(117);
            v.push(108);
            v.push(116);
            proof {
                assert(v@ =~= lit_operator_vault());
            }
        },
        AccountType::OperatorAvsTicket => {
            v.push(111);
            v.push(112);
            v.push(101);
            v.push(114);
            v.push(97);
            v.push(116);
            v.push(111);
            v.push(114);
            v.push(95);
            v.push(97);
            v.push(118);
            v.push(115);
            proof {
                assert(v@ =~= lit_operator_avs());
            }
        },
    }
    v
}

/// The ordered seed list of the configuration singleton.
pub open spec fn spec_config_seeds() -> Seq<Seq<u8>> {
    seq![lit_config()]
}

/// The ordered seed list of a service entity derived from `base`.
pub open spec fn spec_avs_seeds(base: Seq<u8>) -> Seq<Seq<u8>> {
    seq![lit_avs(), base]
}

/// The ordered seed list of an operator entity derived from `base`.
pub open spec fn spec_operator_seeds(base: Seq<u8>) -> Seq<Seq<u8>> {
    seq![lit_operator(), base]
}

/// Builds the configuration singleton's seed list.
pub fn config_seeds() -> (r: Vec<Vec<u8>>)
    ensures
        r.deep_view() == spec_config_seeds(),
{
    let mut r: Vec<Vec<u8>> = Vec::new();
    r.push(kind_literal(AccountType::Config));
    proof {
        assert(r.deep_view() =~~= spec_config_seeds());
    }
    r
}

/// Builds the seed list of a service entity derived from `base`.
pub fn avs_seeds(base: &Pubkey) -> (r: Vec<Vec<u8>>)
    ensures
        r.deep_view() == spec_avs_seeds(base@),
{
    let mut r: Vec<Vec<u8>> = Vec::new();
    r.push(kind_literal(AccountType::Avs));
    r.push(base.to_vec());
    proof {
        assert(r.deep_view() =~~= spec_avs_seeds(base@));
    }
    r
}

/// Builds the seed list of an operator entity derived from `base`.
pub fn operator_seeds(base: &Pubkey) -> (r: Vec<Vec<u8>>)
    ensures
        r.deep_view() == spec_operator_seeds(base@),
{
    let mut r: Vec<Vec<u8>> = Vec::new();
    r.push(kind_literal(AccountType::Operator));
    r.push(base.to_vec());
    proof {
        assert(r.deep_view() =~~= spec_operator_seeds(base@));
    }
    r
}

/// Whether a record kind is one of the five edge-ticket kinds.
pub open spec fn spec_is_ticket_type(t: AccountType) -> bool {
    match t {
        AccountType::AvsVaultTicket => true,
        AccountType::AvsOperatorTicket => true,
        AccountType::AvsVaultSlasherTicket => true,
        AccountType::OperatorVaultTicket => true,
        AccountType::OperatorAvsTicket => true,
        _ => false,
    }
}

/// Whether an edge-ticket kind carries a third endpoint in its seeds.
pub open spec fn spec_has_third_endpoint(t: AccountType) -> bool {
    t == AccountType::AvsVaultSlasherTicket
}

/// The ordered seed list of an edge ticket: the kind's literal, the parent
/// endpoint, the child endpoint, and, for the slasher kind alone, the
/// third endpoint.
pub open spec fn spec_ticket_seeds(
    t: AccountType,
    parent: Seq<u8>,
    child: Seq<u8>,
    third: Seq<u8>,
) -> Seq<Seq<u8>> {
    if spec_has_third_endpoint(t) {
        seq![spec_kind_literal(t), parent, child, third]
    } else {
        seq![spec_kind_literal(t), parent, child]
    }
}

/// Whether a record kind is one of the five edge-ticket kinds.
pub fn is_ticket_type(t: AccountType) -> (r: bool)
    ensures
        r == spec_is_ticket_type(t),
{
    match t {
        AccountType::AvsVaultTicket => true,
        AccountType::AvsOperatorTicket => true,
        AccountType::AvsVaultSlasherTicket => true,
        AccountType::OperatorVaultTicket => true,
        AccountType::OperatorAvsTicket => true,
        _ => false,
    }
}

/// Builds the seed list of an edge ticket of kind `t`.
pub fn ticket_seeds(t: AccountType, parent: &Pubkey, child: &Pubkey, third: &Pubkey) -> (r: Vec<
    Vec<u8>,
>)
    ensures
        r.deep_view() == spec_ticket_seeds(t, parent@, child@, third@),
{
    let mut r: Vec<Vec<u8>> = Vec::new();
    r.push(kind_literal(t));
    r.push(parent.to_vec());
    r.push(child.to_vec());
    let slasher_kind = match t {
        AccountType::AvsVaultSlasherTicket => true,
        _ => false,
    };
    if slasher_kind {
        r.push(third.to_vec());
    }
    proof {
        assert(r.deep_view() =~~= spec_ticket_seeds(t, parent@, child@, third@));
    }
    r
}

/// Appends the one-byte disambiguation seed to a seed list.
pub fn push_bump_seed(seeds: &mut Vec<Vec<u8>>, bump: u8)
    ensures
        final(seeds).deep_view() == old(seeds).deep_view().push(seq![bump]),
{
    let mut b: Vec<u8> = Vec::new();
    b.push(bump);
    seeds.push(b);
    proof {
        assert(b@ =~= seq![bump]);
        assert(seeds.deep_view() =~~= old(seeds).deep_view().push(seq![bump]));
    }
}

} // verus!
