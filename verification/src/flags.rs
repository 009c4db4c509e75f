//! Decoding a flag bitmask into its badge labels.
//!
//! A profile carries a single unsigned integer encoding independent boolean
//! attributes via powers of two. Decoding evaluates the mask against a fixed
//! table of (label, bit value) pairs and returns, in table order, the label
//! of every pair whose bit is set.

use vstd::prelude::*;

use crate::profile::UserData;

verus! {

/// The views of a sequence of owned strings.
pub open spec fn views_of(v: Seq<String>) -> Seq<Seq<char>> {
    v.map_values(|s: String| s@)
}

/// One conditional entry of the decoded label list: the label alone when
/// the pair's bit is set in `flags`, and nothing otherwise.
pub open spec fn label_if(flags: u64, bit: u64, label: Seq<char>) -> Seq<Seq<char>> {
    if flags & bit == bit {
        seq![label]
    } else {
        Seq::empty()
    }
}

/// The decoded label list for a bitmask: the labels of the fixed table
/// whose bits are set, in table order.
pub open spec fn spec_flag_labels(flags: u64) -> Seq<Seq<char>> {
    label_if(flags, 1, "Staff"@) + label_if(flags, 2, "Partnered_Server_Owner"@) + label_if(
        flags,
        4,
        "HypeSquad_Events"@,
    ) + label_if(flags, 8, "Bug_Hunter_Level_1"@) + label_if(flags, 64, "HypeSquad_Bravery"@)
        + label_if(flags, 128, "HypeSquad_Brilliance"@) + label_if(flags, 256, "HypeSquad_Balance"@)
        + label_if(flags, 512, "Premium_Early_Supporter"@) + label_if(
        flags,
        1024,
        "Team_Pseudo_User"@,
    ) + label_if(flags, 16384, "Bug_Hunter_Level_2"@) + label_if(flags, 65536, "Verified_Bot"@)
        + label_if(flags, 131072, "Verified_Developer"@) + label_if(
        flags,
        262144,
        "Certified_Moderator"@,
    ) + label_if(flags, 524288, "Bot_Http_Interactions"@) + label_if(
        flags,
        4194304,
        "Active_Developer"@,
    )
}

/// Appends the label exactly when the pair's bit is set in the mask.
fn push_label_if(v: &mut Vec<String>, flags: u64, bit: u64, label: &str)
    ensures
        views_of(final(v)@) == views_of(old(v)@) + label_if(flags, bit, label@),
{
    proof {
        broadcast use vstd::seq_lib::group_seq_lib_default;
        broadcast use vstd::prelude::Seq::lemma_push_map_commute;

    }
    if flags & bit == bit {
        v.push(String::from_str(label));
        assert(views_of(v@) =~= views_of(old(v)@) + label_if(flags, bit, label@));
    } else {
        assert(views_of(v@) =~= views_of(old(v)@) + label_if(flags, bit, label@));
    }
}

impl UserData {
    /// Decodes the profile's public flag bitmask into its badge labels,
    /// in the order of the fixed table.
    pub fn check_flags(&self) -> (r: Vec<String>)
        ensures
            views_of(r@) == spec_flag_labels(self.public_flags),
    {
        let f = self.public_flags;
        let mut v: Vec<String> = Vec::new();
        push_label_if(&mut v, f, 1, "Staff");
        push_label_if(&mut v, f, 2, "Partnered_Server_Owner");
        push_label_if(&mut v, f, 4, "HypeSquad_Events");
        push_label_if(&mut v, f, 8, "Bug_Hunter_Level_1");
        push_label_if(&mut v, f, 64, "HypeSquad_Bravery");
        push_label_if(&mut v, f, 128, "HypeSquad_Brilliance");
        push_label_if(&mut v, f, 256, "HypeSquad_Balance");
        push_label_if(&mut v, f, 512, "Premium_Early_Supporter");
        push_label_if(&mut v, f, 1024, "Team_Pseudo_User");
        push_label_if(&mut v, f, 16384, "Bug_Hunter_Level_2");
        push_label_if(&mut v, f, 65536, "Verified_Bot");
        push_label_if(&mut v, f, 131072, "Verified_Developer");
        push_label_if(&mut v, f, 262144, "Certified_Moderator");
        push_label_if(&mut v, f, 524288, "Bot_Http_Interactions");
        push_label_if(&mut v, f, 4194304, "Active_Developer");
        proof {
            broadcast use vstd::seq_lib::group_seq_lib_default;

            assert(views_of(v@) =~= spec_flag_labels(f));
        }
        v
    }
}

/// A mask of zero decodes to the empty label list: no bit of any table
/// entry is set.
pub proof fn lemma_zero_flags_no_labels()
    ensures
        spec_flag_labels(0) == Seq::<Seq<char>>::empty(),
{
    assert(0u64 & 1 != 1 && 0u64 & 2 != 2 && 0u64 & 4 != 4 && 0u64 & 8 != 8 && 0u64 & 64 != 64
        && 0u64 & 128 != 128 && 0u64 & 256 != 256 && 0u64 & 512 != 512 && 0u64 & 1024 != 1024
        && 0u64 & 16384 != 16384 && 0u64 & 65536 != 65536 && 0u64 & 131072 != 131072 && 0u64
        & 262144 != 262144 && 0u64 & 524288 != 524288 && 0u64 & 4194304 != 4194304)
        by (bit_vector);
    assert(spec_flag_labels(0) =~= Seq::<Seq<char>>::empty());
}

} // verus!
