//! Encoding of requests into protocol lines, and of parameter values into
//! their textual form on the wire.
use vstd::prelude::*;

verus! {

/// The character of a decimal digit.
pub open spec fn digit_char(d: nat) -> char {
    if d == 0 {
        '0'
    } else if d == 1 {
        '1'
    } else if d == 2 {
        '2'
    } else if d == 3 {
        '3'
    } else if d == 4 {
        '4'
    } else if d == 5 {
        '5'
    } else if d == 6 {
        '6'
    } else if d == 7 {
        '7'
    } else if d == 8 {
        '8'
    } else {
        '9'
    }
}

/// The shortest decimal rendering of a natural number.
pub open spec fn decimal(n: nat) -> Seq<char>
    decreases n,
{
    if n < 10 {
        seq![digit_char(n)]
    } else {
        decimal(n / 10).push(digit_char(n % 10))
    }
}

/// Decimal rendering of an integer, with a leading minus when negative.
pub open spec fn signed_decimal(i: int) -> Seq<char> {
    if i < 0 {
        seq!['-'] + decimal((-i) as nat)
    } else {
        decimal(i as nat)
    }
}

/// A text between double quotes.
pub open spec fn quoted(s: Seq<char>) -> Seq<char> {
    seq!['"'] + s + seq!['"']
}

/// The parts separated by single commas.
pub open spec fn comma_joined(parts: Seq<Seq<char>>) -> Seq<char>
    decreases parts.len(),
{
    if parts.len() == 0 {
        Seq::empty()
    } else if parts.len() == 1 {
        parts[0]
    } else {
        comma_joined(parts.drop_last()) + seq![','] + parts.last()
    }
}

/// The request line for a method call: a JSON object with the id, the method
/// name and the already rendered parameter list, terminated by CRLF.
pub open spec fn request_line(id: nat, method: Seq<char>, params: Seq<char>) -> Seq<char> {
    seq!['{', '"', 'i', 'd', '"', ':'] + decimal(id) + seq![
        ',',
        '"',
        'm',
        'e',
        't',
        'h',
        'o',
        'd',
        '"',
        ':',
        '"',
    ] + method + seq!['"', ',', '"', 'p', 'a', 'r', 'a', 'm', 's', '"', ':', '['] + params + seq![
        ']',
        '}',
        '\r',
        '\n',
    ]
}

/// Appends the text of one character.
pub fn push_char(out: &mut String, c: char)
    ensures
        final(out)@ == old(out)@.push(c),
{
    let mut buf = [0u8; 4];
    let s: &str = encode_char(c, &mut buf);
    out.append(s);
}

/// Relies on char::encode_utf8: the returned text is the one character.
#[verifier::external_body]
fn encode_char(c: char, buf: &mut [u8; 4]) -> (r: &str)
    ensures
        r@ == seq![c],
{
    c.encode_utf8(buf)
}

/// Appends the decimal rendering of `n`.
pub fn push_decimal(out: &mut String, n: u64)
    ensures
        final(out)@ == old(out)@ + decimal(n as nat),
    decreases n,
{
    if n >= 10 {
        push_decimal(out, n / 10);
    }
    let d: u64 = n % 10;
    let c: char = if d == 0 {
        '0'
    } else if d == 1 {
        '1'
    } else if d == 2 {
        '2'
    } else if d == 3 {
        '3'
    } else if d == 4 {
        '4'
    } else if d == 5 {
        '5'
    } else if d == 6 {
        '6'
    } else if d == 7 {
        '7'
    } else if d == 8 {
        '8'
    } else {
        '9'
    };
    push_char(out, c);
    assert(final(out)@ =~= old(out)@ + decimal(n as nat));
}

/// Appends the decimal rendering of `i`, with a minus sign when negative.
pub fn push_signed(out: &mut String, i: i64)
    ensures
        final(out)@ == old(out)@ + signed_decimal(i as int),
{
    if i < 0 {
        push_char(out, '-');
        let m: u64 = if i == i64::MIN {
            0x8000_0000_0000_0000u64
        } else {
            (-i) as u64
        };
        push_decimal(out, m);
        assert(final(out)@ =~= old(out)@ + signed_decimal(i as int));
    } else {
        push_decimal(out, i as u64);
    }
}

/// The decimal rendering of `n`.
pub fn render_u64(n: u64) -> (r: String)
    ensures
        r@ == decimal(n as nat),
{
    let mut out = String::new();
    push_decimal(&mut out, n);
    assert(out@ =~= decimal(n as nat));
    out
}

/// The decimal rendering of `i`.
pub fn render_i64(i: i64) -> (r: String)
    ensures
        r@ == signed_decimal(i as int),
{
    let mut out = String::new();
    push_signed(&mut out, i);
    assert(out@ =~= signed_decimal(i as int));
    out
}

/// `s` between double quotes, as string parameters travel on the wire.
pub fn quote(s: &str) -> (r: String)
    ensures
        r@ == quoted(s@),
{
    let mut out = String::new();
    push_char(&mut out, '"');
    out.append(s);
    push_char(&mut out, '"');
    assert(out@ =~= quoted(s@));
    out
}

/// The views of a list of strings.
pub open spec fn views(v: Seq<String>) -> Seq<Seq<char>> {
    v.map_values(|s: String| s@)
}

proof fn lemma_comma_joined_step(parts: Seq<Seq<char>>, i: int)
    requires
        0 < i < parts.len(),
    ensures
        comma_joined(parts.take(i + 1)) == comma_joined(parts.take(i)) + seq![','] + parts[i],
{
    assert(parts.take(i + 1).drop_last() =~= parts.take(i));
}

/// The parts joined by commas.
pub fn join_commas(parts: &Vec<String>) -> (r: String)
    ensures
        r@ == comma_joined(views(parts@)),
{
    let mut out = String::new();
    if parts.len() == 0 {
        assert(out@ =~= comma_joined(views(parts@)));
        return out;
    }
    out.append(parts[0].as_str());
    let ghost vs = views(parts@);
    assert(vs.take(1) =~= seq![vs[0]]);
    assert(out@ =~= comma_joined(vs.take(1)));
    let mut i: usize = 1;
    while i < parts.len()
        invariant
            1 <= i <= parts.len(),
            vs == views(parts@),
            out@ == comma_joined(vs.take(i as int)),
        decreases parts.len() - i,
    {
        push_char(&mut out, ',');
        out.append(parts[i].as_str());
        proof {
            lemma_comma_joined_step(vs, i as int);
        }
        i = i + 1;
    }
    assert(vs.take(i as int) =~= vs);
    out
}

/// Builds the request line for a call of `method` with id `id` and the
/// rendered parameters `params`.
pub fn encode_request(id: u64, method: &str, params: &str) -> (r: String)
    ensures
        r@ == request_line(id as nat, method@, params@),
{
    let mut out = String::new();
    push_char(&mut out, '{');
    push_char(&mut out, '"');
    push_char(&mut out, 'i');
    push_char(&mut out, 'd');
    push_char(&mut out, '"');
    push_char(&mut out, ':');
    push_decimal(&mut out, id);
    push_char(&mut out, ',');
    push_char(&mut out, '"');
    push_char(&mut out, 'm');
    push_char(&mut out, 'e');
    push_char(&mut out, 't');
    push_char(&mut out, 'h');
    push_char(&mut out, 'o');
    push_char(&mut out, 'd');
    push_char(&mut out, '"');
    push_char(&mut out, ':');
    push_char(&mut out, '"');
    out.append(method);
    push_char(&mut out, '"');
    push_char(&mut out, ',');
    push_char(&mut out, '"');
    push_char(&mut out, 'p');
    push_char(&mut out, 'a');
    push_char(&mut out, 'r');
    push_char(&mut out, 'a');
    push_char(&mut out, 'm');
    push_char(&mut out, 's');
    push_char(&mut out, '"');
    push_char(&mut out, ':');
    push_char(&mut out, '[');
    out.append(params);
    push_char(&mut out, ']');
    push_char(&mut out, '}');
    push_char(&mut out, '\r');
    push_char(&mut out, '\n');
    assert(out@ =~= request_line(id as nat, method@, params@));
    out
}

/// The rendered parameters of a request, in order.
pub struct ParamList {
    parts: Vec<String>,
}

impl View for ParamList {
    type V = Seq<Seq<char>>;

    closed spec fn view(&self) -> Seq<Seq<char>> {
        views(self.parts@)
    }
}

impl ParamList {
    /// No parameter.
    pub fn new() -> (r: Self)
        ensures
            r@ == Seq::<Seq<char>>::empty(),
    {
        let r = ParamList { parts: Vec::new() };
        assert(r@ =~= Seq::<Seq<char>>::empty());
        r
    }

    /// Adds a parameter already in its wire form.
    pub fn push_raw(&mut self, p: String)
        ensures
            final(self)@ == old(self)@.push(p@),
    {
        self.parts.push(p);
        assert(final(self)@ =~= old(self)@.push(p@));
    }

    /// Adds a string parameter, quoted.
    pub fn push_text(&mut self, s: &str)
        ensures
            final(self)@ == old(self)@.push(quoted(s@)),
    {
        let q = quote(s);
        self.push_raw(q);
    }

    /// Adds an unsigned number.
    pub fn push_u64(&mut self, n: u64)
        ensures
            final(self)@ == old(self)@.push(decimal(n as nat)),
    {
        let t = render_u64(n);
        self.push_raw(t);
    }

    /// Adds a signed number.
    pub fn push_i64(&mut self, i: i64)
        ensures
            final(self)@ == old(self)@.push(signed_decimal(i as int)),
    {
        let t = render_i64(i);
        self.push_raw(t);
    }

    /// The parameters separated by commas, as they stand between the brackets
    /// of a request.
    pub fn render(&self) -> (r: String)
        ensures
            r@ == comma_joined(self@),
    {
        join_commas(&self.parts)
    }
}

} // verus!

