//! The JSON body of the endpoint: an object with the ten fixed
//! geolocation keys, each value the verbatim header string (escaped as
//! JSON demands) or `null`. The serialized text is pinned down exactly.

use vstd::prelude::*;
use vstd::string::{StrSliceExecFns, StringExecFns};
use crate::headers::{LocationRecord, LocationView};

verus! {

/// The lower-case hexadecimal digit for `d`.
pub open spec fn hex_digit(d: int) -> char {
    if d == 0 {
        '0'
    } else if d == 1 {
        '1'
    } else if d == 2 {
        '2'
    } else if d == 3 {
        '3'
    } else if d == 4 {
        '4'
    } else if d == 5 {
        '5'
    } else if d == 6 {
        '6'
    } else if d == 7 {
        '7'
    } else if d == 8 {
        '8'
    } else if d == 9 {
        '9'
    } else if d == 10 {
        'a'
    } else if d == 11 {
        'b'
    } else if d == 12 {
        'c'
    } else if d == 13 {
        'd'
    } else if d == 14 {
        'e'
    } else {
        'f'
    }
}

/// How one character reads inside a JSON string literal: quote and
/// backslash are escaped, control characters get their short escape or a
/// `\u00XX` escape, and every other character stands as itself.
pub open spec fn escaped_char(c: char) -> Seq<char> {
    let u = c as u32;
    if u == 0x22 {
        "\\\""@
    } else if u == 0x5C {
        "\\\\"@
    } else if u == 0x08 {
        "\\b"@
    } else if u == 0x09 {
        "\\t"@
    } else if u == 0x0A {
        "\\n"@
    } else if u == 0x0C {
        "\\f"@
    } else if u == 0x0D {
        "\\r"@
    } else if u < 0x20 {
        "\\u00"@ + seq![hex_digit(u as int / 16), hex_digit(u as int % 16)]
    } else {
        seq![c]
    }
}

/// The body of a JSON string literal for `s`: each character escaped.
pub open spec fn escaped(s: Seq<char>) -> Seq<char>
    decreases s.len(),
{
    if s.len() == 0 {
        Seq::empty()
    } else {
        escaped(s.drop_last()) + escaped_char(s.last())
    }
}

/// The JSON text for an optional string value: a quoted, escaped string
/// literal, or the keyword `null`.
pub open spec fn json_opt_text(v: Option<Seq<char>>) -> Seq<char> {
    match v {
        Option::None => "null"@,
        Option::Some(s) => "\""@ + escaped(s) + "\""@,
    }
}

/// One `"key":value` member of the JSON object. The keys of this crate
/// are fixed ASCII names that need no escaping.
pub open spec fn json_member(key: Seq<char>, v: Option<Seq<char>>) -> Seq<char> {
    "\""@ + key + "\":"@ + json_opt_text(v)
}

/// The entire JSON object for a location record: all ten keys, in order,
/// present even when their values are `null`.
pub open spec fn location_json_text(v: LocationView) -> Seq<char> {
    "{"@ + json_member("CF-IPCountry"@, v.country) + ","@ + json_member("CF-IPCity"@, v.city)
        + ","@ + json_member("CF-IPContinent"@, v.continent) + ","@ + json_member(
        "CF-IPLongitude"@,
        v.longitude,
    ) + ","@ + json_member("CF-IPLatitude"@, v.latitude) + ","@ + json_member(
        "CF-Region"@,
        v.region,
    ) + ","@ + json_member("CF-Region-Code"@, v.region_code) + ","@ + json_member(
        "CF-Metro-Code"@,
        v.metro_code,
    ) + ","@ + json_member("CF-Postal-Code"@, v.postal_code) + ","@ + json_member(
        "CF-Timezone"@,
        v.timezone,
    ) + "}"@
}

/// Appends the hexadecimal digit for `d` to `out`.
fn append_hex_digit(out: &mut String, d: u32)
    requires
        d < 16,
    ensures
        final(out)@ == old(out)@ + seq![hex_digit(d as int)],
{
    if d == 0 {
        out.append("0");
        proof {
            reveal_strlit("0");
            assert("0"@ =~= seq![hex_digit(0)]);
        }
    } else if d == 1 {
        out.append("1");
        proof {
            reveal_strlit("1");
            assert("1"@ =~= seq![hex_digit(1)]);
        }
    } else if d == 2 {
        out.append("2");
        proof {
            reveal_strlit("2");
            assert("2"@ =~= seq![hex_digit(2)]);
        }
    } else if d == 3 {
        out.append("3");
        proof {
            reveal_strlit("3");
            assert("3"@ =~= seq![hex_digit(3)]);
        }
    } else if d == 4 {
        out.append("4");
        proof {
            reveal_strlit("4");
            assert("4"@ =~= seq![hex_digit(4)]);
        }
    } else if d == 5 {
        out.append("5");
        proof {
            reveal_strlit("5");
            assert("5"@ =~= seq![hex_digit(5)]);
        }
    } else if d == 6 {
        out.append("6");
        proof {
            reveal_strlit("6");
            assert("6"@ =~= seq![hex_digit(6)]);
        }
    } else if d == 7 {
        out.append("7");
        proof {
            reveal_strlit("7");
            assert("7"@ =~= seq![hex_digit(7)]);
        }
    } else if d == 8 {
        out.append("8");
        proof {
            reveal_strlit("8");
            assert("8"@ =~= seq![hex_digit(8)]);
        }
    } else if d == 9 {
        out.append("9");
        proof {
            reveal_strlit("9");
            assert("9"@ =~= seq![hex_digit(9)]);
        }
    } else if d == 10 {
        out.append("a");
        proof {
            reveal_strlit("a");
            assert("a"@ =~= seq![hex_digit(10)]);
        }
    } else if d == 11 {
        out.append("b");
        proof {
            reveal_strlit("b");
            assert("b"@ =~= seq![hex_digit(11)]);
        }
    } else if d == 12 {
        out.append("c");
        proof {
            reveal_strlit("c");
            assert("c"@ =~= seq![hex_digit(12)]);
        }
    } else if d == 13 {
        out.append("d");
        proof {
            reveal_strlit("d");
            assert("d"@ =~= seq![hex_digit(13)]);
        }
    } else if d == 14 {
        out.append("e");
        proof {
            reveal_strlit("e");
            assert("e"@ =~= seq![hex_digit(14)]);
        }
    } else {
        out.append("f");
        proof {
            reveal_strlit("f");
            assert("f"@ =~= seq![hex_digit(15)]);
        }
    }
}

/// Appends the body of the JSON string literal for `s` to `out`.
#[verifier::loop_isolation(false)]
fn append_escaped(out: &mut String, s: &str)
    ensures
        final(out)@ == old(out)@ + escaped(s@),
{
    let n = s.unicode_len();
    let mut i: usize = 0;
    proof {
        assert(s@.take(0) =~= Seq::<char>::empty());
        assert(out@ + escaped(s@.take(0)) =~= out@);
    }
    while i < n
        invariant
            0 <= i <= n,
            out@ == old(out)@ + escaped(s@.take(i as int)),
        decreases n - i,
    {
        let c = s.get_char(i);
        let u = c as u32;
        if u == 0x22 {
            out.append("\\\"");
        } else if u == 0x5C {
            out.append("\\\\");
        } else if u == 0x08 {
            out.append("\\b");
        } else if u == 0x09 {
            out.append("\\t");
        } else if u == 0x0A {
            out.append("\\n");
        } else if u == 0x0C {
            out.append("\\f");
        } else if u == 0x0D {
            out.append("\\r");
        } else if u < 0x20 {
            out.append("\\u00");
            append_hex_digit(out, u / 16);
            append_hex_digit(out, u % 16);
        } else {
            let piece = s.substring_char(i, i + 1);
            out.append(piece);
            proof {
                assert(piece@ =~= seq![c]);
            }
        }
        proof {
            assert(s@.take(i as int + 1).drop_last() =~= s@.take(i as int));
            assert(s@.take(i as int + 1).last() == s@[i as int]);
            assert(out@ =~= old(out)@ + escaped(s@.take(i as int + 1)));
        }
        i += 1;
    }
    proof {
        assert(s@.take(n as int) =~= s@);
    }
}

/// Appends the JSON text for one optional string value to `out`.
fn append_json_opt_text(out: &mut String, v: &Option<String>)
    ensures
        final(out)@ == old(out)@ + json_opt_text(v.deep_view()),
{
    match v {
        Option::None => {
            out.append("null");
        },
        Option::Some(s) => {
            out.append("\"");
            append_escaped(out, s.as_str());
            out.append("\"");
            proof {
                assert(out@ =~= old(out)@ + json_opt_text(v.deep_view()));
            }
        },
    }
}

/// Appends one `"key":value` member to `out`.
fn append_member(out: &mut String, key: &str, v: &Option<String>)
    ensures
        final(out)@ == old(out)@ + json_member(key@, v.deep_view()),
{
    out.append("\"");
    out.append(key);
    out.append("\":");
    append_json_opt_text(out, v);
    proof {
        assert(out@ =~= old(out)@ + json_member(key@, v.deep_view()));
    }
}

/// Serializes a location record to its JSON object, the exact text the
/// endpoint sends: every key present, absent fields rendered as `null`.
pub fn location_json(r: &LocationRecord) -> (out: String)
    ensures
        out@ == location_json_text(r@),
{
    let mut out = String::new();
    out.append("{");
    append_member(&mut out, "CF-IPCountry", &r.country);
    out.append(",");
    append_member(&mut out, "CF-IPCity", &r.city);
    out.append(",");
    append_member(&mut out, "CF-IPContinent", &r.continent);
    out.append(",");
    append_member(&mut out, "CF-IPLongitude", &r.longitude);
    out.append(",");
    append_member(&mut out, "CF-IPLatitude", &r.latitude);
    out.append(",");
    append_member(&mut out, "CF-Region", &r.region);
    out.append(",");
    append_member(&mut out, "CF-Region-Code", &r.region_code);
    out.append(",");
    append_member(&mut out, "CF-Metro-Code", &r.metro_code);
    out.append(",");
    append_member(&mut out, "CF-Postal-Code", &r.postal_code);
    out.append(",");
    append_member(&mut out, "CF-Timezone", &r.timezone);
    out.append("}");
    proof {
        assert(out@ =~= location_json_text(r@));
    }
    out
}

} // verus!
