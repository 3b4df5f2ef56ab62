//! User badges and their single-byte bitmask encoding.

use vstd::prelude::*;

verus! {

/// A badge that a user can have on Modrinth.
///
/// Badges are awarded for various contributions to the Modrinth community.
/// These are currently unused and undisplayed, and as such are subject to
/// change.
#[derive(Clone, Copy, Debug, PartialEq, Eq, Structural)]
pub enum Badge {
    EarlyModpackAdopter,
    EarlyRespackAdopter,
    EarlyPluginAdopter,
    AlphaTester,
    Contributor,
    Translator,
}

/// The bit that encodes a badge in the wire bitmask; the lowest and the
/// highest bit of the byte are reserved and unused.
pub open spec fn badge_bit(b: Badge) -> u8 {
    match b {
        Badge::EarlyModpackAdopter => 0x02,
        Badge::EarlyRespackAdopter => 0x04,
        Badge::EarlyPluginAdopter => 0x08,
        Badge::AlphaTester => 0x10,
        Badge::Contributor => 0x20,
        Badge::Translator => 0x40,
    }
}

/// The badges whose bit is set in `bits`, in declaration order.
pub open spec fn decode_spec(bits: u8) -> Seq<Badge> {
    let s0 = Seq::<Badge>::empty();
    let s1 = if bits & 0x02 != 0 {
        s0.push(Badge::EarlyModpackAdopter)
    } else {
        s0
    };
    let s2 = if bits & 0x04 != 0 {
        s1.push(Badge::EarlyRespackAdopter)
    } else {
        s1
    };
    let s3 = if bits & 0x08 != 0 {
        s2.push(Badge::EarlyPluginAdopter)
    } else {
        s2
    };
    let s4 = if bits & 0x10 != 0 {
        s3.push(Badge::AlphaTester)
    } else {
        s3
    };
    let s5 = if bits & 0x20 != 0 {
        s4.push(Badge::Contributor)
    } else {
        s4
    };
    if bits & 0x40 != 0 {
        s5.push(Badge::Translator)
    } else {
        s5
    }
}

/// The set of badges a user holds.
#[derive(Debug, PartialEq, Eq)]
pub struct Badges(pub Vec<Badge>);

impl Clone for Badges {
    /// The copy holds the same badge sequence.
    fn clone(&self) -> (res: Self)
        ensures
            res.0@ == self.0@,
    {
        let mut out: Vec<Badge> = Vec::new();
        let n = self.0.len();
        let mut i: usize = 0;
        while i < n
            invariant
                i <= n,
                n == self.0@.len(),
                out@ == self.0@.take(i as int),
            decreases n - i,
        {
            out.push(self.0[i]);
            proof {
                assert(out@ =~= self.0@.take(i + 1));
            }
            i = i + 1;
        }
        proof {
            assert(self.0@.take(n as int) =~= self.0@);
        }
        Badges(out)
    }
}

impl Badges {
    /// Decode a badge bitmask: every badge whose bit is set is included,
    /// in declaration order, and bits that encode no known badge are
    /// silently ignored, so decoding never fails.
    pub fn decode(bits: u8) -> (r: Badges)
        ensures
            r.0@ == decode_spec(bits),
    {
        let mut out: Vec<Badge> = Vec::new();
        if bits & 0x02 != 0 {
            out.push(Badge::EarlyModpackAdopter);
        }
        if bits & 0x04 != 0 {
            out.push(Badge::EarlyRespackAdopter);
        }
        if bits & 0x08 != 0 {
            out.push(Badge::EarlyPluginAdopter);
        }
        if bits & 0x10 != 0 {
            out.push(Badge::AlphaTester);
        }
        if bits & 0x20 != 0 {
            out.push(Badge::Contributor);
        }
        if bits & 0x40 != 0 {
            out.push(Badge::Translator);
        }
        proof {
            assert(out@ =~= decode_spec(bits));
        }
        Badges(out)
    }
}

proof fn lemma_push_contains(s: Seq<Badge>, x: Badge, y: Badge)
    ensures
        s.push(x).contains(y) <==> (s.contains(y) || x == y),
{
    if s.contains(y) {
        let i = choose|i: int| 0 <= i < s.len() && s[i] == y;
        assert(s.push(x)[i] == y);
    }
    if x == y {
        assert(s.push(x)[s.len() as int] == y);
    }
    if s.push(x).contains(y) && x != y {
        let i = choose|i: int| 0 <= i < s.push(x).len() && s.push(x)[i] == y;
        assert(s[i] == y);
    }
}

/// A decoded badge set contains a badge exactly when the badge's bit is
/// set in the wire byte, whatever the other bits hold.
pub proof fn lemma_badge_decode_membership(bits: u8, b: Badge)
    ensures
        decode_spec(bits).contains(b) <==> bits & badge_bit(b) != 0,
{
    let s0 = Seq::<Badge>::empty();
    let s1 = if bits & 0x02 != 0 {
        s0.push(Badge::EarlyModpackAdopter)
    } else {
        s0
    };
    let s2 = if bits & 0x04 != 0 {
        s1.push(Badge::EarlyRespackAdopter)
    } else {
        s1
    };
    let s3 = if bits & 0x08 != 0 {
        s2.push(Badge::EarlyPluginAdopter)
    } else {
        s2
    };
    let s4 = if bits & 0x10 != 0 {
        s3.push(Badge::AlphaTester)
    } else {
        s3
    };
    let s5 = if bits & 0x20 != 0 {
        s4.push(Badge::Contributor)
    } else {
        s4
    };
    let s6 = if bits & 0x40 != 0 {
        s5.push(Badge::Translator)
    } else {
        s5
    };
    assert(decode_spec(bits) == s6);
    assert(!s0.contains(b));
    if bits & 0x02 != 0 {
        lemma_push_contains(s0, Badge::EarlyModpackAdopter, b);
    }
    if bits & 0x04 != 0 {
        lemma_push_contains(s1, Badge::EarlyRespackAdopter, b);
    }
    if bits & 0x08 != 0 {
        lemma_push_contains(s2, Badge::EarlyPluginAdopter, b);
    }
    if bits & 0x10 != 0 {
        lemma_push_contains(s3, Badge::AlphaTester, b);
    }
    if bits & 0x20 != 0 {
        lemma_push_contains(s4, Badge::Contributor, b);
    }
    if bits & 0x40 != 0 {
        lemma_push_contains(s5, Badge::Translator, b);
    }
}

} // verus!
