use vstd::prelude::*;

use crate::tui::app::Setpoint;

verus! {

/// Whether `c` has the Unicode `White_Space` property: tab, line feed,
/// vertical tab, form feed, carriage return, space, next line, no-break
/// space, ogham space mark, the spaces U+2000 to U+200A, line and paragraph
/// separator, narrow no-break space, medium mathematical space and
/// ideographic space.
pub open spec fn unicode_white_space(c: char) -> bool {
    let n = c as u32;
    ||| 0x09 <= n <= 0x0d
    ||| n == 0x20
    ||| n == 0x85
    ||| n == 0xa0
    ||| n == 0x1680
    ||| 0x2000 <= n <= 0x200a
    ||| n == 0x2028
    ||| n == 0x2029
    ||| n == 0x202f
    ||| n == 0x205f
    ||| n == 0x3000
}

/// Whether `c` has the Unicode `White_Space` property (see
/// [`unicode_white_space`]); the same answer as `char::is_whitespace`.
fn is_white_space(c: char) -> (r: bool)
    ensures
        r == unicode_white_space(c),
{
    let n = c as u32;
    (0x09 <= n && n <= 0x0d) || n == 0x20 || n == 0x85 || n == 0xa0 || n == 0x1680 || (0x2000 <= n
        && n <= 0x200a) || n == 0x2028 || n == 0x2029 || n == 0x202f || n == 0x205f || n == 0x3000
}

/// Calls `String::push`, which appends `c` to the end of `s`.
#[verifier::external_body]
fn push_char(s: &mut String, c: char)
    ensures
        final(s)@ == old(s)@.push(c),
{
    s.push(c)
}

/// `s` without its leading white space.
pub open spec fn trim_start(s: Seq<char>) -> Seq<char>
    decreases s.len(),
{
    if s.len() > 0 && unicode_white_space(s[0]) {
        trim_start(s.drop_first())
    } else {
        s
    }
}

/// `s` without its trailing white space.
pub open spec fn trim_end(s: Seq<char>) -> Seq<char>
    decreases s.len(),
{
    if s.len() > 0 && unicode_white_space(s.last()) {
        trim_end(s.drop_last())
    } else {
        s
    }
}

/// `s` without its trailing commas.
pub open spec fn trim_end_commas(s: Seq<char>) -> Seq<char>
    decreases s.len(),
{
    if s.len() > 0 && s.last() == ',' {
        trim_end_commas(s.drop_last())
    } else {
        s
    }
}

/// The JSON object text made of an AtmoWeb reply: the reply without
/// surrounding white space and trailing commas, in braces.
pub open spec fn reply_object(reply: Seq<char>) -> Seq<char> {
    "{"@ + trim_end_commas(trim_end(trim_start(reply))) + "}"@
}

/// `key=value` for one query parameter; an absent value leaves `key=`.
pub open spec fn param_text(p: (&str, Option<&str>)) -> Seq<char> {
    p.0@ + "="@ + match p.1 {
        Some(v) => v@,
        None => Seq::empty(),
    }
}

/// The parameters as `key=value` joined by `&`.
pub open spec fn query_text(ps: Seq<(&str, Option<&str>)>) -> Seq<char>
    decreases ps.len(),
{
    if ps.len() == 0 {
        Seq::empty()
    } else if ps.len() == 1 {
        param_text(ps[0])
    } else {
        query_text(ps.drop_last()) + "&"@ + param_text(ps.last())
    }
}

/// Turns an AtmoWeb reply into JSON object text (see [`reply_object`]).
pub fn wrap_reply(reply: &str) -> (r: String)
    ensures
        r@ == reply_object(reply@),
{
    let n = reply.unicode_len();
    let ghost s = reply@;
    let mut start: usize = 0;
    proof {
        assert(s.subrange(0, n as int) =~= s);
    }
    while start < n && is_white_space(reply.get_char(start))
        invariant
            n == s.len(),
            s == reply@,
            start <= n,
            trim_start(s) == trim_start(s.subrange(start as int, n as int)),
        decreases n - start,
    {
        proof {
            let sub = s.subrange(start as int, n as int);
            assert(sub.drop_first() =~= s.subrange(start + 1, n as int));
        }
        start = start + 1;
    }
    proof {
        let sub = s.subrange(start as int, n as int);
        if start < n {
            assert(sub[0] == s[start as int]);
        }
        assert(trim_start(sub) == sub);
    }
    let mut end: usize = n;
    while end > start && is_white_space(reply.get_char(end - 1))
        invariant
            n == s.len(),
            s == reply@,
            start <= end <= n,
            trim_end(trim_start(s)) == trim_end(s.subrange(start as int, end as int)),
        decreases end,
    {
        proof {
            let sub = s.subrange(start as int, end as int);
            assert(sub.drop_last() =~= s.subrange(start as int, end - 1));
        }
        end = end - 1;
    }
    proof {
        let sub = s.subrange(start as int, end as int);
        if end > start {
            assert(sub.last() == s[end - 1]);
        }
        assert(trim_end(sub) == sub);
    }
    while end > start && reply.get_char(end - 1) == ','
        invariant
            n == s.len(),
            s == reply@,
            start <= end <= n,
            trim_end_commas(trim_end(trim_start(s))) == trim_end_commas(
                s.subrange(start as int, end as int),
            ),
        decreases end,
    {
        proof {
            let sub = s.subrange(start as int, end as int);
            assert(sub.drop_last() =~= s.subrange(start as int, end - 1));
        }
        end = end - 1;
    }
    proof {
        let sub = s.subrange(start as int, end as int);
        if end > start {
            assert(sub.last() == s[end - 1]);
        }
        assert(trim_end_commas(sub) == sub);
    }
    let mut out = String::from_str("{");
    out.append(reply.substring_char(start, end));
    out.append("}");
    out
}

/// Whether a reply holds anything but white space.
pub fn reply_is_nonblank(reply: &str) -> (r: bool)
    ensures
        r == exists|i: int| 0 <= i < reply@.len() && !unicode_white_space(#[trigger] reply@[i]),
{
    let n = reply.unicode_len();
    let mut i: usize = 0;
    while i < n
        invariant
            n == reply@.len(),
            i <= n,
            forall|j: int| 0 <= j < i ==> unicode_white_space(#[trigger] reply@[j]),
        decreases n - i,
    {
        if !is_white_space(reply.get_char(i)) {
            return true;
        }
        i = i + 1;
    }
    false
}

/// Joins the parameters as `key=value` with `&` (see [`query_text`]).
pub fn query_string(params: &[(&str, Option<&str>)]) -> (r: String)
    ensures
        r@ == query_text(params@),
{
    let mut out = String::new();
    let n = params.len();
    let mut i: usize = 0;
    while i < n
        invariant
            n == params@.len(),
            i <= n,
            out@ == query_text(params@.subrange(0, i as int)),
        decreases n - i,
    {
        let (k, v) = params[i];
        let ghost before = out@;
        if i > 0 {
            out.append("&");
        }
        out.append(k);
        out.append("=");
        match v {
            Some(v) => out.append(v),
            None => {},
        }
        proof {
            let ps = params@.subrange(0, i + 1);
            assert(ps.drop_last() =~= params@.subrange(0, i as int));
            assert(ps.last() == params@[i as int]);
            if i == 0 {
                assert(out@ =~= param_text(params@[0]));
            } else {
                assert(out@ =~= before + "&"@ + param_text(params@[i as int]));
            }
        }
        i = i + 1;
    }
    proof {
        assert(params@.subrange(0, n as int) =~= params@);
    }
    out
}

/// The address that asks the oven at `ip` for `query`.
pub fn query_url(ip: &str, query: &str) -> (r: String)
    ensures
        r@ == "http://"@ + ip@ + "/atmoweb?"@ + query@,
{
    let mut out = String::from_str("http://");
    out.append(ip);
    out.append("/atmoweb?");
    out.append(query);
    out
}

/// The address whose answer tells whether the oven at `ip` is online.
pub fn status_url(ip: &str) -> (r: String)
    ensures
        r@ == "http://"@ + ip@ + "/atmoweb?SN="@,
{
    let mut out = String::from_str("http://");
    out.append(ip);
    out.append("/atmoweb?SN=");
    out
}

/// The character of decimal digit `d`.
pub open spec fn digit_char(d: int) -> char {
    (48 + d) as char
}

/// The decimal digits of `n`, most significant first, without leading zeros
/// (`0` for zero).
pub open spec fn decimal_digits(n: nat) -> Seq<char>
    decreases n,
{
    if n < 10 {
        seq![digit_char(n as int)]
    } else {
        decimal_digits(n / 10).push(digit_char((n % 10) as int))
    }
}

/// The three thousandths digits of `f` (0 < f < 1000) without trailing zeros.
pub open spec fn fraction_digits(f: int) -> Seq<char> {
    let d1 = f / 100;
    let d2 = (f / 10) % 10;
    let d3 = f % 10;
    if d3 != 0 {
        seq![digit_char(d1), digit_char(d2), digit_char(d3)]
    } else if d2 != 0 {
        seq![digit_char(d1), digit_char(d2)]
    } else {
        seq![digit_char(d1)]
    }
}

/// The shortest decimal text of the fixed-point value `v` (thousandths): a
/// minus sign when negative, the whole part, and the fraction without
/// trailing zeros when there is one; `20500` reads `20.5`, `-2000` reads
/// `-2`.
pub open spec fn fixed_text(v: int) -> Seq<char> {
    let a = if v < 0 {
        -v
    } else {
        v
    };
    let whole = a / 1000;
    let frac = a % 1000;
    (if v < 0 {
        seq!['-']
    } else {
        Seq::empty()
    }) + decimal_digits(whole as nat) + (if frac == 0 {
        Seq::empty()
    } else {
        seq!['.'] + fraction_digits(frac)
    })
}

/// The character of decimal digit `d`.
fn digit(d: u64) -> (c: char)
    requires
        d < 10,
    ensures
        c == digit_char(d as int),
{
    ((48u8 + d as u8) as char)
}

/// Appends the decimal digits of `n`.
fn push_decimal(out: &mut String, n: u64)
    ensures
        final(out)@ == old(out)@ + decimal_digits(n as nat),
    decreases n,
{
    if n >= 10 {
        push_decimal(out, n / 10);
    }
    push_char(out, digit(n % 10));
    proof {
        if n < 10 {
            assert(old(out)@.push(digit_char(n as int)) =~= old(out)@ + seq![digit_char(n as int)]);
        } else {
            assert((old(out)@ + decimal_digits((n / 10) as nat)).push(digit_char((n % 10) as int))
                =~= old(out)@ + decimal_digits(n as nat));
        }
    }
}

/// Writes the fixed-point value `v` as decimal text (see [`fixed_text`]).
pub fn format_fixed(v: i64) -> (r: String)
    ensures
        r@ == fixed_text(v as int),
{
    let mut out = String::new();
    let a: u64 = if v < 0 {
        push_char(&mut out, '-');
        (0i128 - v as i128) as u64
    } else {
        v as u64
    };
    let ghost sign = out@;
    push_decimal(&mut out, a / 1000);
    let ghost whole = out@;
    let frac = a % 1000;
    if frac != 0 {
        push_char(&mut out, '.');
        let d1 = frac / 100;
        let d2 = (frac / 10) % 10;
        let d3 = frac % 10;
        push_char(&mut out, digit(d1));
        if d3 != 0 {
            push_char(&mut out, digit(d2));
            push_char(&mut out, digit(d3));
        } else if d2 != 0 {
            push_char(&mut out, digit(d2));
        }
        proof {
            assert(out@ =~= whole + (seq!['.'] + fraction_digits(frac as int)));
        }
    } else {
        proof {
            assert(out@ =~= whole + Seq::<char>::empty());
        }
    }
    proof {
        if v < 0 {
            assert(sign =~= seq!['-']);
        } else {
            assert(sign =~= Seq::<char>::empty());
        }
    }
    out
}

/// The query parameter name that writes a setpoint.
pub open spec fn setpoint_key(sp: Setpoint) -> Seq<char> {
    match sp {
        Setpoint::Temp(_) => "TempSet"@,
        Setpoint::Flap(_) => "FlapSet"@,
        Setpoint::Fan(_) => "FanSet"@,
    }
}

/// The value a setpoint writes.
pub open spec fn setpoint_value(sp: Setpoint) -> i64 {
    match sp {
        Setpoint::Temp(v) => v,
        Setpoint::Flap(v) => v,
        Setpoint::Fan(v) => v,
    }
}

/// The query parameter name that writes a setpoint; the oven answers under
/// the same name.
pub fn setpoint_name(sp: Setpoint) -> (r: &'static str)
    ensures
        r@ == setpoint_key(sp),
{
    match sp {
        Setpoint::Temp(_) => "TempSet",
        Setpoint::Flap(_) => "FlapSet",
        Setpoint::Fan(_) => "FanSet",
    }
}

/// A value read from the oven.
#[derive(Debug, Clone, Copy, PartialEq, Eq, Structural)]
pub enum Reading {
    /// The measured temperature.
    Temp1,
    /// The temperature setpoint.
    SetTemp,
    /// The flap setting.
    Flap,
    /// The fan speed.
    Fan,
}

/// The query parameter name that reads a value; the oven answers under the
/// same name.
pub open spec fn reading_key(r: Reading) -> Seq<char> {
    match r {
        Reading::Temp1 => "Temp1Read"@,
        Reading::SetTemp => "TempSet"@,
        Reading::Flap => "FlapSet"@,
        Reading::Fan => "FanRead"@,
    }
}

/// The query parameter name that reads a value (see [`reading_key`]).
pub fn reading_name(r: Reading) -> (s: &'static str)
    ensures
        s@ == reading_key(r),
{
    match r {
        Reading::Temp1 => "Temp1Read",
        Reading::SetTemp => "TempSet",
        Reading::Flap => "FlapSet",
        Reading::Fan => "FanRead",
    }
}

/// The query that writes a setpoint, such as `TempSet=20.5`. The value is
/// the exact decimal of the fixed-point thousandths for all three setpoints:
/// a whole number reads as it is (`FlapSet=12`), and a fraction such as 12.3
/// reads `12.3`, not the digits of the nearest `f32` widened to `f64`
/// (`12.300000190734863`) that a float client would send for flap and fan.
pub fn setpoint_query(sp: Setpoint) -> (r: String)
    ensures
        r@ == setpoint_key(sp) + "="@ + fixed_text(setpoint_value(sp) as int),
{
    let key = setpoint_name(sp);
    let v = match sp {
        Setpoint::Temp(v) => v,
        Setpoint::Flap(v) => v,
        Setpoint::Fan(v) => v,
    };
    let mut out = String::from_str(key);
    out.append("=");
    let text = format_fixed(v);
    out.append(text.as_str());
    out
}

} // verus!
