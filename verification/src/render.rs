//! Natural-language rendering of a breakdown, in a full mode that lists all
//! five units and a mode that omits zero-valued units.

use vstd::prelude::*;
use crate::breakdown::DurationBreakdown;
use crate::digits::{spec_dec, u64_to_string};

verus! {

/// The suffix pluralization appends: nothing for exactly 1, `"s"` for every
/// other value, zero included.
pub open spec fn spec_plural_suffix(n: nat) -> Seq<char> {
    if n == 1 {
        Seq::empty()
    } else {
        seq!['s']
    }
}

/// One rendered unit: the value in decimal, a space, the unit's singular
/// name, and the pluralization suffix.
pub open spec fn spec_unit(value: nat, name: Seq<char>) -> Seq<char> {
    spec_dec(value) + seq![' '] + name + spec_plural_suffix(value)
}

/// Renders one unit, exactly as `spec_unit` describes.
fn unit_string(value: u64, name: &str) -> (s: String)
    ensures
        s@ == spec_unit(value as nat, name@),
{
    let mut s = u64_to_string(value);
    s.append(" ");
    s.append(name);
    if value != 1 {
        s.append("s");
    }
    proof {
        reveal_strlit(" ");
        reveal_strlit("s");
        assert(s@ =~= spec_unit(value as nat, name@));
    }
    s
}

/// Joins rendered units: `", "` between units, except `", and "` before the
/// last of two or more.
pub open spec fn spec_join(parts: Seq<Seq<char>>) -> Seq<char>
    decreases parts.len(),
{
    if parts.len() == 0 {
        Seq::empty()
    } else if parts.len() == 1 {
        parts[0]
    } else if parts.len() == 2 {
        parts[0] + ", and "@ + parts[1]
    } else {
        parts[0] + ", "@ + spec_join(parts.drop_first())
    }
}

/// Joins the units of `parts` from position `i` on, exactly as `spec_join`
/// describes.
fn join_parts(parts: &Vec<String>, i: usize) -> (r: String)
    requires
        i < parts.len(),
    ensures
        r@ == spec_join(parts@.map_values(|p: String| p@).skip(i as int)),
    decreases parts.len() - i,
{
    let ghost m = parts@.map_values(|p: String| p@);
    let mut s = String::from_str(parts[i].as_str());
    if i + 1 == parts.len() {
        proof {
            assert(m.skip(i as int).len() == 1);
            assert(m.skip(i as int)[0] == m[i as int]);
        }
        s
    } else if i + 2 == parts.len() {
        s.append(", and ");
        s.append(parts[i + 1].as_str());
        proof {
            assert(m.skip(i as int).len() == 2);
            assert(m.skip(i as int)[0] == m[i as int]);
            assert(m.skip(i as int)[1] == m[i + 1]);
            assert(s@ =~= spec_join(m.skip(i as int)));
        }
        s
    } else {
        s.append(", ");
        let rest = join_parts(parts, i + 1);
        s.append(rest.as_str());
        proof {
            assert(m.skip(i as int).len() >= 3);
            assert(m.skip(i as int)[0] == m[i as int]);
            assert(m.skip(i as int).drop_first() =~~= m.skip(i as int + 1));
            assert(s@ =~= spec_join(m.skip(i as int)));
        }
        s
    }
}

/// The five units of a breakdown, rendered in order from weeks to seconds.
pub open spec fn spec_parts_full(b: DurationBreakdown) -> Seq<Seq<char>> {
    seq![
        spec_unit(b.weeks as nat, "week"@),
        spec_unit(b.days as nat, "day"@),
        spec_unit(b.hours as nat, "hour"@),
        spec_unit(b.minutes as nat, "minute"@),
        spec_unit(b.seconds as nat, "second"@),
    ]
}

/// The full-mode rendering: all five units, zero-valued ones included.
pub open spec fn spec_render_full(b: DurationBreakdown) -> Seq<char> {
    spec_join(spec_parts_full(b))
}

/// The units of a breakdown with every zero-valued one omitted.
pub open spec fn spec_parts_hide_zeros(b: DurationBreakdown) -> Seq<Seq<char>> {
    let none = Seq::<Seq<char>>::empty();
    (if b.weeks != 0 {
        seq![spec_unit(b.weeks as nat, "week"@)]
    } else {
        none
    }) + (if b.days != 0 {
        seq![spec_unit(b.days as nat, "day"@)]
    } else {
        none
    }) + (if b.hours != 0 {
        seq![spec_unit(b.hours as nat, "hour"@)]
    } else {
        none
    }) + (if b.minutes != 0 {
        seq![spec_unit(b.minutes as nat, "minute"@)]
    } else {
        none
    }) + (if b.seconds != 0 {
        seq![spec_unit(b.seconds as nat, "second"@)]
    } else {
        none
    })
}

/// The hide-zeros rendering: the nonzero units joined; a breakdown with all
/// fields zero falls back to `"0 seconds"`.
pub open spec fn spec_render_hide_zeros(b: DurationBreakdown) -> Seq<char> {
    if spec_parts_hide_zeros(b).len() == 0 {
        "0 seconds"@
    } else {
        spec_join(spec_parts_hide_zeros(b))
    }
}

/// Pluralization law: a unit whose value is exactly 1 renders the singular
/// name; any other value, zero included, renders the name with an `"s"`.
pub proof fn lemma_pluralization(value: nat, name: Seq<char>)
    ensures
        value == 1 ==> spec_unit(value, name) == spec_dec(value) + seq![' '] + name,
        value != 1 ==> spec_unit(value, name) == spec_dec(value) + seq![' '] + name + seq!['s'],
{
    if value == 1 {
        assert(spec_unit(value, name) =~= spec_dec(value) + seq![' '] + name);
    } else {
        assert(spec_unit(value, name) =~= spec_dec(value) + seq![' '] + name + seq!['s']);
    }
}

/// Hide-zeros law: the list of rendered units holds exactly the nonzero
/// ones, so a breakdown with all fields zero lists no unit at all and
/// renders the fallback `"0 seconds"` instead.
pub proof fn lemma_hide_zeros_omits_zero_units(b: DurationBreakdown)
    ensures
        spec_parts_hide_zeros(b).len() == (if b.weeks != 0 {
            1int
        } else {
            0int
        }) + (if b.days != 0 {
            1int
        } else {
            0int
        }) + (if b.hours != 0 {
            1int
        } else {
            0int
        }) + (if b.minutes != 0 {
            1int
        } else {
            0int
        }) + (if b.seconds != 0 {
            1int
        } else {
            0int
        }),
        (b.weeks == 0 && b.days == 0 && b.hours == 0 && b.minutes == 0 && b.seconds == 0)
            ==> spec_render_hide_zeros(b) == "0 seconds"@,
{
}

impl DurationBreakdown {
    /// Renders all five units unconditionally, each pluralized, joined with
    /// commas and a final `"and"`.
    pub fn as_string(&self) -> (r: String)
        ensures
            r@ == spec_render_full(*self),
    {
        let mut parts: Vec<String> = Vec::new();
        parts.push(unit_string(self.weeks, "week"));
        parts.push(unit_string(self.days, "day"));
        parts.push(unit_string(self.hours, "hour"));
        parts.push(unit_string(self.minutes, "minute"));
        parts.push(unit_string(self.seconds, "second"));
        let r = join_parts(&parts, 0);
        proof {
            let m = parts@.map_values(|p: String| p@);
            assert(m.skip(0) =~~= spec_parts_full(*self));
        }
        r
    }

    /// Renders the nonzero units only, joined as in the full mode; when
    /// every field is zero it renders `"0 seconds"`.
    pub fn as_string_hide_zeros(&self) -> (r: String)
        ensures
            r@ == spec_render_hide_zeros(*self),
    {
        let mut parts: Vec<String> = Vec::new();
        if self.weeks != 0 {
            parts.push(unit_string(self.weeks, "week"));
        }
        if self.days != 0 {
            parts.push(unit_string(self.days, "day"));
        }
        if self.hours != 0 {
            parts.push(unit_string(self.hours, "hour"));
        }
        if self.minutes != 0 {
            parts.push(unit_string(self.minutes, "minute"));
        }
        if self.seconds != 0 {
            parts.push(unit_string(self.seconds, "second"));
        }
        proof {
            let m = parts@.map_values(|p: String| p@);
            assert(m =~~= spec_parts_hide_zeros(*self));
        }
        if parts.is_empty() {
            String::from_str("0 seconds")
        } else {
            let r = join_parts(&parts, 0);
            proof {
                let m = parts@.map_values(|p: String| p@);
                assert(m.skip(0) =~~= m);
            }
            r
        }
    }
}

} // verus!

