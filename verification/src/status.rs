//! The closed set of lifecycle states a vault can be in, used as the
//! `listvaults` status filter.

use vstd::prelude::*;

verus! {

/// A vault's lifecycle state.  The `listvaults` handler only ever builds one
/// of these from a string that exactly matches one of the known names.
#[derive(Clone, Copy, PartialEq, Eq, Structural, Debug)]
pub enum VaultStatus {
    Unconfirmed,
    Funded,
    Unvaulting,
    Unvaulted,
    Spendable,
    Spending,
    Spent,
    Canceling,
    Canceled,
    EmergencyVaulting,
    EmergencyVaulted,
}

impl VaultStatus {
    /// The name under which this state is spelled at the boundary.
    pub open spec fn spec_name(self) -> Seq<char> {
        match self {
            VaultStatus::Unconfirmed => "unconfirmed"@,
            VaultStatus::Funded => "funded"@,
            VaultStatus::Unvaulting => "unvaulting"@,
            VaultStatus::Unvaulted => "unvaulted"@,
            VaultStatus::Spendable => "spendable"@,
            VaultStatus::Spending => "spending"@,
            VaultStatus::Spent => "spent"@,
            VaultStatus::Canceling => "canceling"@,
            VaultStatus::Canceled => "canceled"@,
            VaultStatus::EmergencyVaulting => "emergencyvaulting"@,
            VaultStatus::EmergencyVaulted => "emergencyvaulted"@,
        }
    }

    /// Which state, if any, a given string names.  Matching is exact and
    /// case-sensitive; anything else is no state at all.
    pub open spec fn spec_from_name(s: Seq<char>) -> Option<VaultStatus> {
        if s == "unconfirmed"@ {
            Some(VaultStatus::Unconfirmed)
        } else if s == "funded"@ {
            Some(VaultStatus::Funded)
        } else if s == "unvaulting"@ {
            Some(VaultStatus::Unvaulting)
        } else if s == "unvaulted"@ {
            Some(VaultStatus::Unvaulted)
        } else if s == "spendable"@ {
            Some(VaultStatus::Spendable)
        } else if s == "spending"@ {
            Some(VaultStatus::Spending)
        } else if s == "spent"@ {
            Some(VaultStatus::Spent)
        } else if s == "canceling"@ {
            Some(VaultStatus::Canceling)
        } else if s == "canceled"@ {
            Some(VaultStatus::Canceled)
        } else if s == "emergencyvaulting"@ {
            Some(VaultStatus::EmergencyVaulting)
        } else if s == "emergencyvaulted"@ {
            Some(VaultStatus::EmergencyVaulted)
        } else {
            None
        }
    }

    /// Parses a lifecycle-state name.
    pub fn from_str(s: &str) -> (r: Option<VaultStatus>)
        ensures
            r == Self::spec_from_name(s@),
    {
        let owned: String = s.to_owned();
        if owned == "unconfirmed".to_owned() {
            Some(VaultStatus::Unconfirmed)
        } else if owned == "funded".to_owned() {
            Some(VaultStatus::Funded)
        } else if owned == "unvaulting".to_owned() {
            Some(VaultStatus::Unvaulting)
        } else if owned == "unvaulted".to_owned() {
            Some(VaultStatus::Unvaulted)
        } else if owned == "spendable".to_owned() {
            Some(VaultStatus::Spendable)
        } else if owned == "spending".to_owned() {
            Some(VaultStatus::Spending)
        } else if owned == "spent".to_owned() {
            Some(VaultStatus::Spent)
        } else if owned == "canceling".to_owned() {
            Some(VaultStatus::Canceling)
        } else if owned == "canceled".to_owned() {
            Some(VaultStatus::Canceled)
        } else if owned == "emergencyvaulting".to_owned() {
            Some(VaultStatus::EmergencyVaulting)
        } else if owned == "emergencyvaulted".to_owned() {
            Some(VaultStatus::EmergencyVaulted)
        } else {
            None
        }
    }

    /// The state's name, for display and serialization at the boundary.
    pub fn name(&self) -> (r: &'static str)
        ensures
            r@ == self.spec_name(),
    {
        match self {
            VaultStatus::Unconfirmed => "unconfirmed",
            VaultStatus::Funded => "funded",
            VaultStatus::Unvaulting => "unvaulting",
            VaultStatus::Unvaulted => "unvaulted",
            VaultStatus::Spendable => "spendable",
            VaultStatus::Spending => "spending",
            VaultStatus::Spent => "spent",
            VaultStatus::Canceling => "canceling",
            VaultStatus::Canceled => "canceled",
            VaultStatus::EmergencyVaulting => "emergencyvaulting",
            VaultStatus::EmergencyVaulted => "emergencyvaulted",
        }
    }
}

/// Parsing is the exact inverse of naming: every state's name parses back to
/// that state, so the recognized names are pairwise distinct.
pub proof fn lemma_status_name_roundtrip(st: VaultStatus)
    ensures
        VaultStatus::spec_from_name(st.spec_name()) == Some(st),
{
    reveal_strlit("unconfirmed");
    reveal_strlit("funded");
    reveal_strlit("unvaulting");
    reveal_strlit("unvaulted");
    reveal_strlit("spendable");
    reveal_strlit("spending");
    reveal_strlit("spent");
    reveal_strlit("canceling");
    reveal_strlit("canceled");
    reveal_strlit("emergencyvaulting");
    reveal_strlit("emergencyvaulted");
    assert("unconfirmed"@.len() == 11);
    assert("funded"@.len() == 6);
    assert("unvaulting"@.len() == 10);
    assert("unvaulted"@.len() == 9);
    assert("spendable"@.len() == 9);
    assert("spending"@.len() == 8);
    assert("spent"@.len() == 5);
    assert("canceling"@.len() == 9);
    assert("canceled"@.len() == 8);
    assert("emergencyvaulting"@.len() == 17);
    assert("emergencyvaulted"@.len() == 16);
    assert("unconfirmed"@[0] == 'u');
    assert("unvaulting"@[0] == 'u');
    assert("unvaulted"@[0] == 'u');
    assert("spendable"@[0] == 's');
    assert("spending"@[0] == 's');
    assert("canceling"@[0] == 'c');
    assert("canceled"@[0] == 'c');
}

/// Parsing is canonical: a string that names a state is exactly that
/// state's name — no state is reachable under two spellings.
pub proof fn lemma_status_name_canonical(s: Seq<char>, st: VaultStatus)
    requires
        VaultStatus::spec_from_name(s) == Some(st),
    ensures
        st.spec_name() == s,
{
}

} // verus!
