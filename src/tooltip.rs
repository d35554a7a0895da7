use vstd::prelude::*;
use crate::report::BatteryState;

verus! {

/// Tooltip of the indicator before any reading has arrived.
pub const WAITING_TOOLTIP: &'static str = "ATK Mouse Battery: waiting for device...";

/// What every reading's tooltip starts with.
pub const TOOLTIP_PREFIX: &'static str = "ATK Mouse Battery: ";

/// What a charging reading's tooltip ends with.
pub const CHARGING_SUFFIX: &'static str = " (charging)";

/// The decimal digit character for d in 0..=9.
pub open spec fn digit_char(d: int) -> char {
    if d == 0 { '0' }
    else if d == 1 { '1' }
    else if d == 2 { '2' }
    else if d == 3 { '3' }
    else if d == 4 { '4' }
    else if d == 5 { '5' }
    else if d == 6 { '6' }
    else if d == 7 { '7' }
    else if d == 8 { '8' }
    else { '9' }
}

/// The decimal notation of n, without leading zeros.
pub open spec fn decimal(n: nat) -> Seq<char>
    decreases n,
{
    if n < 10 {
        seq![digit_char(n as int)]
    } else {
        decimal(n / 10).push(digit_char((n % 10) as int))
    }
}

/// The tooltip for a reading: the prefix, the level in decimal and a percent
/// sign, then the charging suffix while charging.
pub open spec fn tooltip_text(b: BatteryState) -> Seq<char> {
    let base = TOOLTIP_PREFIX@ + decimal(b.percent as nat) + seq!['%'];
    if b.charging { base + CHARGING_SUFFIX@ } else { base }
}

fn digit_str(d: u8) -> (r: &'static str)
    requires
        d < 10,
    ensures
        r@ == seq![digit_char(d as int)],
{
    proof {
        reveal_strlit("0");
        reveal_strlit("1");
        reveal_strlit("2");
        reveal_strlit("3");
        reveal_strlit("4");
        reveal_strlit("5");
        reveal_strlit("6");
        reveal_strlit("7");
        reveal_strlit("8");
        reveal_strlit("9");
    }
    if d == 0 { "0" }
    else if d == 1 { "1" }
    else if d == 2 { "2" }
    else if d == 3 { "3" }
    else if d == 4 { "4" }
    else if d == 5 { "5" }
    else if d == 6 { "6" }
    else if d == 7 { "7" }
    else if d == 8 { "8" }
    else { "9" }
}

/// The tooltip that the indicator shows for a reading, such as
/// "ATK Mouse Battery: 85%" or "ATK Mouse Battery: 22% (charging)".
pub fn battery_tooltip(b: BatteryState) -> (r: String)
    ensures
        r@ == tooltip_text(b),
{
    let p = b.percent;
    let mut s = String::from_str(TOOLTIP_PREFIX);
    let ghost start = s@;
    if p >= 100 {
        s.append(digit_str(p / 100));
    }
    if p >= 10 {
        s.append(digit_str((p / 10) % 10));
    }
    s.append(digit_str(p % 10));
    proof {
        let n = p as nat;
        if n >= 100 {
            assert(decimal(n / 100) == seq![digit_char((n / 100) as int)]);
            assert((n / 10) / 10 == n / 100);
            assert(decimal(n / 10) == decimal(n / 100).push(digit_char(((n / 10) % 10) as int)));
        } else if n >= 10 {
            assert(decimal(n / 10) == seq![digit_char((n / 10) as int)]);
            assert((n / 10) % 10 == n / 10);
        }
        assert(s@ =~= start + decimal(n));
    }
    proof {
        reveal_strlit("%");
    }
    s.append("%");
    if b.charging {
        s.append(CHARGING_SUFFIX);
    }
    assert(s@ =~= tooltip_text(b));
    s
}

} // verus!
