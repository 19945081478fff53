//! Flows (sequences of timed state changes), property lists, and their
//! rendering as request parameters.
use vstd::prelude::*;

use crate::codec::{
    comma_joined, decimal, join_commas, push_char, push_decimal, push_signed, quote, quoted,
    signed_decimal, views,
};
use crate::text::{
    group_by_four, split_on_commas, eq_ignore_case, equal_ignore_case, i8_error_text, parse_i8, parse_u32,
    parse_u64, quad_views, quads, signed_ok, signed_value, split_commas, u32_error_text,
    u64_error_text, unsigned_ok, unsigned_value,
};
use crate::vocab::{FlowMode, Property};

verus! {

/// Error of parsing a value from text, with its description.
#[derive(Debug)]
pub struct ParseError(String);

impl View for ParseError {
    type V = Seq<char>;

    closed spec fn view(&self) -> Seq<char> {
        self.0@
    }
}

impl ParseError {
    /// An error with this description.
    pub fn new(message: String) -> (r: Self)
        ensures
            r@ == message@,
    {
        ParseError(message)
    }

    /// The description of the error.
    pub fn to_string(&self) -> (r: String)
        ensures
            r@ == self@,
    {
        self.0.clone()
    }
}

/// One step of a flow: a change to a color or a color temperature, or a
/// pause.
#[derive(Debug, Clone, Copy, PartialEq, Eq, Structural)]
pub struct FlowTuple {
    /// Length of the step, in milliseconds.
    pub duration: u64,
    /// What the step changes.
    pub mode: FlowMode,
    /// RGB color for a color step, temperature for a temperature step.
    pub value: u32,
    /// Brightness percentage, or -1 to keep the current one.
    pub brightness: i8,
}

impl FlowTuple {
    /// The step as `duration,mode,value,brightness`.
    pub open spec fn wire(self) -> Seq<char> {
        decimal(self.duration as nat) + seq![','] + self.mode.wire() + seq![','] + decimal(
            self.value as nat,
        ) + seq![','] + signed_decimal(self.brightness as int)
    }

    /// A step with the mode given.
    pub fn new(duration: u64, mode: FlowMode, value: u32, brightness: i8) -> (r: Self)
        ensures
            r == (FlowTuple { duration, mode, value, brightness }),
    {
        FlowTuple { duration, mode, value, brightness }
    }

    /// A change to the color `rgb` (`0x000000` to `0xffffff`).
    pub fn rgb(duration: u64, rgb: u32, brightness: i8) -> (r: Self)
        ensures
            r == (FlowTuple { duration, mode: FlowMode::Color, value: rgb, brightness }),
    {
        FlowTuple { duration, mode: FlowMode::Color, value: rgb, brightness }
    }

    /// A change to the color temperature `ct`, in kelvin.
    pub fn ct(duration: u64, ct: u32, brightness: i8) -> (r: Self)
        ensures
            r == (FlowTuple { duration, mode: FlowMode::CT, value: ct, brightness }),
    {
        FlowTuple { duration, mode: FlowMode::CT, value: ct, brightness }
    }

    /// A pause; value and brightness are ignored by the device.
    pub fn sleep(duration: u64) -> (r: Self)
        ensures
            r == (FlowTuple { duration, mode: FlowMode::Sleep, value: 0, brightness: -1i8 }),
    {
        FlowTuple { duration, mode: FlowMode::Sleep, value: 0, brightness: -1 }
    }

    /// The step as `duration,mode,value,brightness`.
    pub fn to_string(&self) -> (r: String)
        ensures
            r@ == self.wire(),
    {
        let mut out = String::new();
        push_decimal(&mut out, self.duration);
        push_char(&mut out, ',');
        let m = self.mode.to_string();
        out.append(m.as_str());
        push_char(&mut out, ',');
        push_decimal(&mut out, self.value as u64);
        push_char(&mut out, ',');
        push_signed(&mut out, self.brightness as i64);
        assert(out@ =~= self.wire());
        out
    }
}

/// The texts of the steps of a flow.
pub open spec fn tuple_texts(ts: Seq<FlowTuple>) -> Seq<Seq<char>> {
    ts.map_values(|t: FlowTuple| t.wire())
}

/// The quoted texts of a list of properties.
pub open spec fn property_texts(ps: Seq<Property>) -> Seq<Seq<char>> {
    ps.map_values(|p: Property| p.wire())
}

/// A flow: the steps that the device plays in order.
#[derive(Debug, Clone)]
pub struct FlowExpresion(pub Vec<FlowTuple>);

impl FlowExpresion {
    /// The flow as one quoted parameter: the steps joined by commas.
    pub fn stringify(&self) -> (r: String)
        ensures
            r@ == quoted(comma_joined(tuple_texts(self.0@))),
    {
        let mut parts: Vec<String> = Vec::new();
        let mut i: usize = 0;
        while i < self.0.len()
            invariant
                i <= self.0@.len(),
                views(parts@) == tuple_texts(self.0@.take(i as int)),
            decreases self.0.len() - i,
        {
            let t = self.0[i].to_string();
            let ghost prev = parts@;
            let ghost tv = t@;
            parts.push(t);
            assert(views(parts@) =~= views(prev).push(tv));
            assert(self.0@.take(i as int + 1) =~= self.0@.take(i as int).push(self.0@[i as int]));
            assert(tuple_texts(self.0@.take(i as int + 1)) =~= tuple_texts(self.0@.take(i as int)).push(tv));
            i = i + 1;
        }
        assert(self.0@.take(i as int) =~= self.0@);
        let joined = join_commas(&parts);
        let s = joined.as_str();
        quote(s)
    }
}

/// A list of properties, as asked for by `get_prop`.
#[derive(Debug)]
pub struct Properties(pub Vec<Property>);

impl Properties {
    /// The property names, each quoted, joined by commas.
    pub fn stringify(&self) -> (r: String)
        ensures
            r@ == comma_joined(property_texts(self.0@)),
    {
        let mut parts: Vec<String> = Vec::new();
        let mut i: usize = 0;
        while i < self.0.len()
            invariant
                i <= self.0@.len(),
                views(parts@) == property_texts(self.0@.take(i as int)),
            decreases self.0.len() - i,
        {
            let t = self.0[i].to_string();
            let ghost prev = parts@;
            let ghost tv = t@;
            parts.push(t);
            assert(views(parts@) =~= views(prev).push(tv));
            assert(self.0@.take(i as int + 1) =~= self.0@.take(i as int).push(self.0@[i as int]));
            assert(property_texts(self.0@.take(i as int + 1)) =~= property_texts(self.0@.take(i as int)).push(tv));
            i = i + 1;
        }
        assert(self.0@.take(i as int) =~= self.0@);
        join_commas(&parts)
    }
}

/// The mode named by `s`: a mode's name in any ASCII case, or its number.
pub open spec fn flow_mode_of(s: Seq<char>) -> Option<FlowMode> {
    if eq_ignore_case(s, "Color"@) || eq_ignore_case(s, "1"@) {
        Some(FlowMode::Color)
    } else if eq_ignore_case(s, "CT"@) || eq_ignore_case(s, "2"@) {
        Some(FlowMode::CT)
    } else if eq_ignore_case(s, "Sleep"@) || eq_ignore_case(s, "7"@) {
        Some(FlowMode::Sleep)
    } else {
        None
    }
}

/// The description of a mode that names none.
pub open spec fn mode_error_text(s: Seq<char>) -> Seq<char> {
    "Could not parse FlowMode: "@ + s + "\nvalid values: 1 (Color), 2(CT), 7(Sleep)"@
}

/// One step read from the four texts `duration,mode,value,brightness`; the
/// fields are checked in the order duration, value, mode, brightness.
pub open spec fn parse_step(q: (Seq<char>, Seq<char>, Seq<char>, Seq<char>)) -> Result<
    FlowTuple,
    Seq<char>,
> {
    if !unsigned_ok(q.0, u64::MAX as int) {
        Err(u64_error_text(q.0))
    } else if !unsigned_ok(q.2, u32::MAX as int) {
        Err(u32_error_text(q.2))
    } else if flow_mode_of(q.1) is None {
        Err(mode_error_text(q.1))
    } else if !signed_ok(q.3, i8::MIN as int, i8::MAX as int) {
        Err(i8_error_text(q.3))
    } else {
        Ok(
            FlowTuple {
                duration: unsigned_value(q.0) as u64,
                mode: flow_mode_of(q.1).unwrap(),
                value: unsigned_value(q.2) as u32,
                brightness: signed_value(q.3) as i8,
            },
        )
    }
}

/// The steps read from a sequence of groups: the first error, or every step.
pub open spec fn parse_steps(qs: Seq<(Seq<char>, Seq<char>, Seq<char>, Seq<char>)>) -> Result<
    Seq<FlowTuple>,
    Seq<char>,
>
    decreases qs.len(),
{
    if qs.len() == 0 {
        Ok(Seq::empty())
    } else {
        match parse_steps(qs.drop_last()) {
            Err(e) => Err(e),
            Ok(ts) => match parse_step(qs.last()) {
                Err(e) => Err(e),
                Ok(t) => Ok(ts.push(t)),
            },
        }
    }
}

/// The flow written in `s` as comma-separated groups of four.
pub open spec fn parse_flow(s: Seq<char>) -> Result<Seq<FlowTuple>, Seq<char>> {
    parse_steps(quads(split_commas(s)))
}

proof fn lemma_error_persists(qs: Seq<(Seq<char>, Seq<char>, Seq<char>, Seq<char>)>, n: int)
    requires
        0 <= n <= qs.len(),
        parse_steps(qs.take(n)) is Err,
    ensures
        parse_steps(qs) == parse_steps(qs.take(n)),
    decreases qs.len() - n,
{
    if n < qs.len() {
        assert(qs.take(n + 1).drop_last() =~= qs.take(n));
        lemma_error_persists(qs, n + 1);
    } else {
        assert(qs.take(n) =~= qs);
    }
}

impl FlowMode {
    /// The mode named by `s`.
    pub fn from_text(s: &str) -> (r: Option<FlowMode>)
        ensures
            r == flow_mode_of(s@),
    {
        if equal_ignore_case(s, "Color") || equal_ignore_case(s, "1") {
            Some(FlowMode::Color)
        } else if equal_ignore_case(s, "CT") || equal_ignore_case(s, "2") {
            Some(FlowMode::CT)
        } else if equal_ignore_case(s, "Sleep") || equal_ignore_case(s, "7") {
            Some(FlowMode::Sleep)
        } else {
            None
        }
    }
}

fn parse_one(d: &str, m: &str, v: &str, b: &str) -> (r: Result<FlowTuple, ParseError>)
    ensures
        r matches Ok(t) ==> parse_step((d@, m@, v@, b@)) == Ok::<FlowTuple, Seq<char>>(t),
        r matches Err(e) ==> parse_step((d@, m@, v@, b@)) == Err::<FlowTuple, Seq<char>>(e@),
{
    let duration = match parse_u64(d) {
        Ok(x) => x,
        Err(e) => return Err(ParseError(e)),
    };
    let value = match parse_u32(v) {
        Ok(x) => x,
        Err(e) => return Err(ParseError(e)),
    };
    let mode = match FlowMode::from_text(m) {
        Some(x) => x,
        None => {
            let mut msg = String::from_str("Could not parse FlowMode: ");
            msg.append(m);
            msg.append("\nvalid values: 1 (Color), 2(CT), 7(Sleep)");
            return Err(ParseError(msg));
        },
    };
    let brightness = match parse_i8(b) {
        Ok(x) => x,
        Err(e) => return Err(ParseError(e)),
    };
    Ok(FlowTuple { duration, mode, value, brightness })
}

impl FlowExpresion {
    /// Reads a flow written as `duration,mode,value,brightness` groups, all
    /// separated by commas; a last incomplete group is ignored.
    pub fn from_str(s: &str) -> (r: Result<FlowExpresion, ParseError>)
        ensures
            r matches Ok(f) ==> parse_flow(s@) == Ok::<Seq<FlowTuple>, Seq<char>>(f.0@),
            r matches Err(e) ==> parse_flow(s@) == Err::<Seq<FlowTuple>, Seq<char>>(e@),
    {
        let pieces = split_on_commas(s);
        let ghost ps = pieces@.map_values(|p: String| p@);
        let groups = group_by_four(pieces);
        let ghost qs = quads(split_commas(s@));
        assert(groups@.len() == qs.len());
        assert(groups@.map_values(|q: (String, String, String, String)| quad_views(q)) =~= qs) by {
            assert forall|k: int| 0 <= k < qs.len() implies quad_views(#[trigger] groups@[k])
                == qs[k] by {
                assert(ps[4 * k] == pieces@[4 * k]@);
                assert(ps[4 * k + 1] == pieces@[4 * k + 1]@);
                assert(ps[4 * k + 2] == pieces@[4 * k + 2]@);
                assert(ps[4 * k + 3] == pieces@[4 * k + 3]@);
            }
        }
        let mut steps: Vec<FlowTuple> = Vec::new();
        let mut i: usize = 0;
        while i < groups.len()
            invariant
                i <= groups@.len() == qs.len(),
                qs == quads(split_commas(s@)),
                groups@.map_values(|q: (String, String, String, String)| quad_views(q)) == qs,
                parse_steps(qs.take(i as int)) == Ok::<Seq<FlowTuple>, Seq<char>>(steps@),
            decreases groups.len() - i,
        {
            let g = &groups[i];
            assert(quad_views(groups@[i as int]) == qs[i as int]);
            assert(qs.take(i as int + 1).drop_last() =~= qs.take(i as int));
            match parse_one(g.0.as_str(), g.1.as_str(), g.2.as_str(), g.3.as_str()) {
                Ok(t) => {
                    steps.push(t);
                },
                Err(e) => {
                    proof {
                        lemma_error_persists(qs, i as int + 1);
                    }
                    return Err(e);
                },
            }
            i = i + 1;
        }
        assert(qs.take(i as int) =~= qs);
        Ok(FlowExpresion(steps))
    }
}

} // verus!

