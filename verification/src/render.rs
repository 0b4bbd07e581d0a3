//! Rendering of errors into stable, tier-prefixed, user-facing messages.
//!
//! `error_message` is the mathematical statement of the whole message;
//! `HeliocronError::render` is proved to produce exactly that text. Two laws
//! accompany it: rendering is deterministic, and the message of a missed
//! event determines the measured drift (so distinct drifts, in particular a
//! drift and its negation, never render alike).

use vstd::prelude::*;

use crate::decimal::{dec_int, i64_to_string, lemma_dec_int_injective};
use crate::errors::{config_message, ConfigErrorKind, HeliocronError, RuntimeErrorKind};

verus! {

use vstd::string::StringExecFns;

/// The message body for each configuration failure: the fixed description,
/// except that a coordinate failure names its reason behind a fixed prefix.
pub open spec fn config_body(k: ConfigErrorKind) -> Seq<char> {
    match k {
        ConfigErrorKind::InvalidCoordinates(msg) => "Invalid coordinates - "@ + msg@,
        _ => config_message(k),
    }
}

/// The message body for each runtime failure.
pub open spec fn runtime_message(k: RuntimeErrorKind) -> Seq<char> {
    match k {
        RuntimeErrorKind::NonOccurringEvent => "The chosen event does not occur on this day."@,
        RuntimeErrorKind::PastEvent => "The chosen event occurred in the past; cannot wait a negative amount of time."@,
        RuntimeErrorKind::EventMissed(by) => "Event missed by "@ + dec_int(by as int) + "s"@,
        RuntimeErrorKind::SleepError(cause) => cause@,
    }
}

/// The full message of an error: its body prefixed by its tier.
pub open spec fn error_message(e: HeliocronError) -> Seq<char> {
    match e {
        HeliocronError::Config(k) => "Config error: "@ + config_body(k),
        HeliocronError::Runtime(k) => "Runtime error: "@ + runtime_message(k),
    }
}

impl HeliocronError {
    /// Renders this error as its stable user-facing message, exactly as
    /// `error_message` states it.
    pub fn render(&self) -> (r: String)
        ensures
            r@ == error_message(*self),
    {
        let mut out = String::new();
        match self {
            HeliocronError::Config(k) => {
                out.append("Config error: ");
                match k {
                    ConfigErrorKind::InvalidCoordinates(msg) => {
                        out.append("Invalid coordinates - ");
                        out.append(msg);
                    },
                    _ => {
                        out.append(k.as_str());
                    },
                }
                proof {
                    assert(out@ =~= error_message(*self));
                }
            },
            HeliocronError::Runtime(k) => {
                out.append("Runtime error: ");
                match k {
                    RuntimeErrorKind::NonOccurringEvent => {
                        out.append("The chosen event does not occur on this day.");
                    },
                    RuntimeErrorKind::PastEvent => {
                        out.append(
                            "The chosen event occurred in the past; cannot wait a negative amount of time.",
                        );
                    },
                    RuntimeErrorKind::EventMissed(by) => {
                        out.append("Event missed by ");
                        let digits = i64_to_string(*by);
                        out.append(digits.as_str());
                        out.append("s");
                    },
                    RuntimeErrorKind::SleepError(cause) => {
                        out.append(cause.as_str());
                    },
                }
                proof {
                    assert(out@ =~= error_message(*self));
                }
            },
        }
        out
    }
}

/// Sequences that agree around a middle part of equal position pin the middle
/// down: if `p + x + s == p + y + s`, then `x == y`.
proof fn lemma_concat_mid_injective(p: Seq<char>, x: Seq<char>, y: Seq<char>, s: Seq<char>)
    requires
        p + x + s == p + y + s,
    ensures
        x == y,
{
    assert((p + x + s).len() == p.len() + x.len() + s.len());
    assert((p + y + s).len() == p.len() + y.len() + s.len());
    assert(x.len() == y.len());
    assert forall|i: int| 0 <= i < x.len() implies x[i] == y[i] by {
        assert((p + x + s)[p.len() + i] == x[i]);
        assert((p + y + s)[p.len() + i] == y[i]);
    }
    assert(x =~= y);
}

/// Law: rendering is deterministic — two errors built from the same variant
/// and payload render to the same message.
pub proof fn lemma_render_deterministic(a: HeliocronError, b: HeliocronError)
    ensures
        a == b ==> error_message(a) == error_message(b),
{
}

/// Law: the tier is readable off the rendered message — it begins with
/// "Config error: " exactly on configuration failures, and with
/// "Runtime error: " exactly on runtime failures. (Distinctness of whole
/// messages across variants cannot hold: a sleep-error cause carries
/// arbitrary text, which may spell any other variant's message.)
pub proof fn lemma_tier_prefix_distinguishes(e: HeliocronError)
    ensures
        e is Config <==> error_message(e).take("Config error: "@.len() as int)
            == "Config error: "@,
        e is Runtime <==> error_message(e).take("Runtime error: "@.len() as int)
            == "Runtime error: "@,
{
    reveal_strlit("Config error: ");
    reveal_strlit("Runtime error: ");
    reveal_strlit("Invalid coordinates - ");
    reveal_strlit("Error parsing TOML file. Ensure that it is of the correct format.");
    reveal_strlit("Error parsing date. Ensure the date and timezone formats are correct.");
    reveal_strlit("Error parsing altitude. Must be a number which is <= 90.0 and >= -90.0.");
    reveal_strlit("Error parsing offset. Expected a string in the format HH:MM:SS or HH:MM.");
    reveal_strlit("Error parsing event.");
    let cp = "Config error: "@;
    let rp = "Runtime error: "@;
    let m = error_message(e);
    match e {
        HeliocronError::Config(k) => {
            assert(m =~= cp + config_body(k));
            assert(m.take(cp.len() as int) =~= cp);
            assert(config_body(k).len() > 0);
            assert(m.len() >= rp.len());
            assert(m[0] == 'C');
            assert(m.take(rp.len() as int) != rp) by {
                if m.take(rp.len() as int) == rp {
                    assert(m.take(rp.len() as int)[0] == m[0]);
                    assert(rp[0] == 'R');
                }
            }
        },
        HeliocronError::Runtime(k) => {
            assert(m =~= rp + runtime_message(k));
            assert(m.take(rp.len() as int) =~= rp);
            assert(m[0] == 'R');
            assert(m.take(cp.len() as int) != cp) by {
                if m.take(cp.len() as int) == cp {
                    assert(m.take(cp.len() as int)[0] == m[0]);
                    assert(cp[0] == 'C');
                }
            }
        },
    }
}

/// Law: the message of a missed event determines the measured drift. In
/// particular a drift and its negation render to distinct messages, each
/// containing its own signed numeral.
pub proof fn lemma_event_missed_message_injective(a: i64, b: i64)
    ensures
        a != b ==> error_message(HeliocronError::Runtime(RuntimeErrorKind::EventMissed(a)))
            != error_message(HeliocronError::Runtime(RuntimeErrorKind::EventMissed(b))),
{
    let ma = error_message(HeliocronError::Runtime(RuntimeErrorKind::EventMissed(a)));
    let mb = error_message(HeliocronError::Runtime(RuntimeErrorKind::EventMissed(b)));
    if ma == mb {
        let p = "Runtime error: "@ + "Event missed by "@;
        let da = dec_int(a as int);
        let db = dec_int(b as int);
        assert(ma =~= p + da + "s"@);
        assert(mb =~= p + db + "s"@);
        lemma_concat_mid_injective(p, da, db, "s"@);
        lemma_dec_int_injective(a as int, b as int);
    }
}

} // verus!
