//! What the code generator is handed: the source, the output directory and a
//! property bag in which native compilation is always switched off, framed as
//! one JSON object on the generator's command line.
use vstd::prelude::*;
use crate::descriptor::App;
use crate::pipeline::{Invocation, strings_view};

verus! {

/// Target properties that callers may pass on to the generator.
#[derive(Clone, Copy, Debug)]
pub struct Properties {}

/// The value of one generator property.
#[derive(Debug)]
pub enum PropValue {
    Null,
    Flag(bool),
    Int(i64),
    Text(String),
}

/// One generator property.
#[derive(Debug)]
pub struct Property {
    pub key: String,
    pub value: PropValue,
}

/// A lowercase hexadecimal digit.
pub open spec fn hex_digit(n: int) -> char {
    "0123456789abcdef"@[n]
}

/// A decimal digit.
pub open spec fn dec_digit(n: int) -> char {
    "0123456789"@[n]
}

/// How one character stands inside a JSON string: quote and backslash are
/// escaped, control characters take their short escape or `\u00XX`.
pub open spec fn escaped_char(c: char) -> Seq<char> {
    if c == '"' {
        seq!['\\', '"']
    } else if c == '\\' {
        seq!['\\', '\\']
    } else if c == '\x08' {
        seq!['\\', 'b']
    } else if c == '\t' {
        seq!['\\', 't']
    } else if c == '\n' {
        seq!['\\', 'n']
    } else if c == '\x0c' {
        seq!['\\', 'f']
    } else if c == '\r' {
        seq!['\\', 'r']
    } else if (c as u32) < 0x20 {
        seq!['\\', 'u', '0', '0', hex_digit((c as u32) as int / 16), hex_digit((c as u32) as int % 16)]
    } else {
        seq![c]
    }
}

pub open spec fn escaped(s: Seq<char>) -> Seq<char>
    decreases s.len(),
{
    if s.len() == 0 {
        Seq::empty()
    } else {
        escaped(s.drop_last()) + escaped_char(s.last())
    }
}

/// The JSON string literal of a text.
pub open spec fn json_string(s: Seq<char>) -> Seq<char> {
    seq!['"'] + escaped(s) + seq!['"']
}

/// Decimal digits of a natural number, without leading zeros.
pub open spec fn nat_text(n: nat) -> Seq<char>
    decreases n,
{
    if n < 10 {
        seq![dec_digit(n as int)]
    } else {
        nat_text(n / 10) + seq![dec_digit((n % 10) as int)]
    }
}

/// The JSON number text of an integer.
pub open spec fn int_text(n: int) -> Seq<char> {
    if n < 0 {
        seq!['-'] + nat_text((-n) as nat)
    } else {
        nat_text(n as nat)
    }
}

/// Relies on serde_json::to_string on a `str`: it writes the string literal
/// into a `Vec`, which cannot fail, escaping by serde_json's table.
#[verifier::external_body]
fn quote(s: &str) -> (r: String)
    ensures
        r@ == json_string(s@),
{
    serde_json::to_string(s).expect("writing into a Vec cannot fail")
}

/// Relies on serde_json::to_string on an `i64`: it writes the decimal digits,
/// with a minus sign when negative, into a `Vec`, which cannot fail.
#[verifier::external_body]
fn int_json(n: i64) -> (r: String)
    ensures
        r@ == int_text(n as int),
{
    serde_json::to_string(&n).expect("writing into a Vec cannot fail")
}

pub open spec fn no_compile_key() -> Seq<char> {
    "no-compile"@
}

/// The properties whose key is not `k`, in order.
pub open spec fn without_key(s: Seq<Property>, k: Seq<char>) -> Seq<Property>
    decreases s.len(),
{
    if s.len() == 0 {
        Seq::empty()
    } else {
        let rest = without_key(s.drop_first(), k);
        if s[0].key@ == k {
            rest
        } else {
            seq![s[0]] + rest
        }
    }
}

/// Native compilation is switched off: the last property says so, and no
/// other property speaks of it.
pub open spec fn forces_no_compile(s: Seq<Property>) -> bool {
    &&& s.len() > 0
    &&& s.last().key@ == no_compile_key()
    &&& s.last().value == PropValue::Flag(true)
    &&& forall|i: int| 0 <= i < s.len() - 1 ==> (#[trigger] s[i]).key@ != no_compile_key()
}

pub proof fn lemma_without_key(s: Seq<Property>, k: Seq<char>)
    ensures
        forall|i: int|
            0 <= i < without_key(s, k).len() ==> (#[trigger] without_key(s, k)[i]).key@ != k,
    decreases s.len(),
{
    if s.len() > 0 {
        lemma_without_key(s.drop_first(), k);
        let rest = without_key(s.drop_first(), k);
        if s[0].key@ != k {
            assert forall|i: int| 0 <= i < (seq![s[0]] + rest).len() implies (#[trigger] (seq![
                s[0],
            ] + rest)[i]).key@ != k by {
                if i > 0 {
                    assert((seq![s[0]] + rest)[i] == rest[i - 1]);
                }
            }
        }
    }
}

/// No two properties share a key, as in a map.
pub open spec fn keys_unique(s: Seq<Property>) -> bool {
    forall|i: int, j: int| 0 <= i < j < s.len() ==> (#[trigger] s[i]).key@ != (#[trigger] s[j]).key@
}

pub proof fn lemma_without_key_members(s: Seq<Property>, k: Seq<char>)
    ensures
        forall|i: int|
            0 <= i < without_key(s, k).len() ==> s.contains(#[trigger] without_key(s, k)[i]),
    decreases s.len(),
{
    if s.len() > 0 {
        let t = s.drop_first();
        lemma_without_key_members(t, k);
        let rest = without_key(t, k);
        assert forall|i: int| 0 <= i < without_key(s, k).len() implies s.contains(
            #[trigger] without_key(s, k)[i],
        ) by {
            let w = without_key(s, k);
            if s[0].key@ != k && i == 0 {
                assert(w[0] == s[0]);
            } else {
                let ri = if s[0].key@ != k {
                    i - 1
                } else {
                    i
                };
                assert(w[i] == rest[ri]);
                assert(t.contains(rest[ri]));
                let j = choose|j: int| 0 <= j < t.len() && t[j] == rest[ri];
                assert(s[j + 1] == t[j]);
            }
        }
    }
}

pub proof fn lemma_without_key_unique(s: Seq<Property>, k: Seq<char>)
    requires
        keys_unique(s),
    ensures
        keys_unique(without_key(s, k)),
    decreases s.len(),
{
    if s.len() > 0 {
        let t = s.drop_first();
        assert(keys_unique(t)) by {
            assert forall|i: int, j: int| 0 <= i < j < t.len() implies (#[trigger] t[i]).key@
                != (#[trigger] t[j]).key@ by {
                assert(t[i] == s[i + 1] && t[j] == s[j + 1]);
            }
        }
        lemma_without_key_unique(t, k);
        lemma_without_key_members(t, k);
        let rest = without_key(t, k);
        if s[0].key@ != k {
            let w = without_key(s, k);
            assert forall|i: int, j: int| 0 <= i < j < w.len() implies (#[trigger] w[i]).key@ != (
            #[trigger] w[j]).key@ by {
                assert(w[j] == rest[j - 1]);
                if i == 0 {
                    assert(t.contains(rest[j - 1]));
                    let q = choose|q: int| 0 <= q < t.len() && t[q] == rest[j - 1];
                    assert(s[q + 1] == t[q]);
                } else {
                    assert(w[i] == rest[i - 1]);
                }
            }
        }
    }
}

/// JSON text of a property value.
pub open spec fn value_json(v: PropValue) -> Seq<char> {
    match v {
        PropValue::Flag(true) => "true"@,
        PropValue::Flag(false) => "false"@,
        PropValue::Null => "null"@,
        PropValue::Int(n) => int_text(n as int),
        PropValue::Text(t) => json_string(t@),
    }
}

/// The members of a JSON object, from pairs of key text and value text.
pub open spec fn members_text(e: Seq<(Seq<char>, Seq<char>)>) -> Seq<char>
    decreases e.len(),
{
    if e.len() == 0 {
        Seq::empty()
    } else if e.len() == 1 {
        e[0].0 + ":"@ + e[0].1
    } else {
        members_text(e.drop_last()) + ","@ + e.last().0 + ":"@ + e.last().1
    }
}

/// The generator's payload: `{"src":S,"out":O,"properties":{...}}`.
pub open spec fn payload_text(
    src: Seq<char>,
    out: Seq<char>,
    members: Seq<(Seq<char>, Seq<char>)>,
) -> Seq<char> {
    "{\"src\":"@ + src + ",\"out\":"@ + out + ",\"properties\":{"@ + members_text(members)
        + "}}"@
}

/// The members of the property bag as JSON texts.
pub open spec fn properties_json(s: Seq<Property>) -> Seq<(Seq<char>, Seq<char>)> {
    s.map_values(|p: Property| (json_string(p.key@), value_json(p.value)))
}

pub open spec fn pairs_view(v: Seq<(String, String)>) -> Seq<(Seq<char>, Seq<char>)> {
    v.map_values(|p: (String, String)| (p.0@, p.1@))
}

/// Frames the payload from JSON texts already made: the quoted source and
/// output paths and the (key, value) members of the property object.
pub fn frame_payload(src: &str, out: &str, members: &Vec<(String, String)>) -> (r: String)
    ensures
        r@ == payload_text(src@, out@, pairs_view(members@)),
{
    let mut body = String::new();
    let mut i: usize = 0;
    while i < members.len()
        invariant
            i <= members@.len(),
            body@ == members_text(pairs_view(members@).take(i as int)),
        decreases members@.len() - i,
    {
        let ghost e = pairs_view(members@).take(i + 1);
        assert(e.drop_last() =~= pairs_view(members@).take(i as int));
        if i > 0 {
            body.append(",");
        }
        body.append(members[i].0.as_str());
        body.append(":");
        body.append(members[i].1.as_str());
        proof {
            if i == 0 {
                assert(Seq::<char>::empty() + members@[0].0@ =~= members@[0].0@);
            }
        }
        assert(body@ =~= members_text(e));
        i = i + 1;
    }
    assert(pairs_view(members@).take(members@.len() as int) =~= pairs_view(members@));
    String::from_str("{\"src\":").concat(src).concat(",\"out\":").concat(out).concat(
        ",\"properties\":{",
    ).concat(body.as_str()).concat("}}")
}

fn value_text(v: &PropValue) -> (r: String)
    ensures
        r@ == value_json(*v),
{
    match v {
        PropValue::Flag(true) => String::from_str("true"),
        PropValue::Flag(false) => String::from_str("false"),
        PropValue::Null => String::from_str("null"),
        PropValue::Int(n) => int_json(*n),
        PropValue::Text(t) => quote(t.as_str()),
    }
}

/// The description handed to the generator.
#[derive(Debug)]
pub struct LFCProperties {
    pub src: String,
    pub out: String,
    pub properties: Vec<Property>,
}

impl LFCProperties {
    /// Takes the caller's properties and adds `"no-compile": true`, replacing
    /// any value the caller gave it: this system, not the generator, compiles.
    pub fn new(src: String, out: String, properties: Vec<Property>) -> (r: LFCProperties)
        requires
            keys_unique(properties@),
        ensures
            keys_unique(r.properties@),
            r.src == src,
            r.out == out,
            r.properties@.drop_last() == without_key(properties@, no_compile_key()),
            forces_no_compile(r.properties@),
    {
        let ghost orig = properties@;
        let nc = String::from_str("no-compile");
        let mut rest = properties;
        let mut kept: Vec<Property> = Vec::new();
        while rest.len() > 0
            invariant
                nc@ == no_compile_key(),
                kept@ + without_key(rest@, no_compile_key()) == without_key(orig, no_compile_key()),
            decreases rest@.len(),
        {
            let ghost before = rest@;
            let p = rest.remove(0);
            assert(rest@ =~= before.drop_first());
            if p.key != nc {
                let ghost old_kept = kept@;
                kept.push(p);
                assert(old_kept + seq![before[0]] + without_key(rest@, no_compile_key()) =~= old_kept
                    + (seq![before[0]] + without_key(rest@, no_compile_key())));
            }
        }
        assert(kept@ + Seq::<Property>::empty() =~= kept@);
        proof {
            lemma_without_key(orig, no_compile_key());
            lemma_without_key_unique(orig, no_compile_key());
        }
        let ghost filtered = kept@;
        kept.push(Property { key: nc, value: PropValue::Flag(true) });
        assert(kept@.drop_last() =~= filtered);
        assert forall|i: int, j: int| 0 <= i < j < kept@.len() implies (#[trigger] kept@[i]).key@
            != (#[trigger] kept@[j]).key@ by {
            if j == kept@.len() - 1 {
                assert(kept@[i] == filtered[i]);
            } else {
                assert(kept@[i] == filtered[i] && kept@[j] == filtered[j]);
            }
        }
        LFCProperties { src, out, properties: kept }
    }

    /// The payload as JSON text.
    pub fn to_json(&self) -> (r: String)
        ensures
            r@ == payload_text(
                json_string(self.src@),
                json_string(self.out@),
                properties_json(self.properties@),
            ),
    {
        let src = quote(self.src.as_str());
        let out = quote(self.out.as_str());
        let mut members: Vec<(String, String)> = Vec::new();
        let mut i: usize = 0;
        while i < self.properties.len()
            invariant
                i <= self.properties@.len(),
                pairs_view(members@) == properties_json(self.properties@).take(i as int),
            decreases self.properties@.len() - i,
        {
            let p = &self.properties[i];
            let k = quote(p.key.as_str());
            let v = value_text(&p.value);
            let ghost before = members@;
            let ghost kv = (k@, v@);
            assert(kv == properties_json(self.properties@)[i as int]);
            members.push((k, v));
            assert(pairs_view(members@) =~= pairs_view(before).push(kv));
            assert(properties_json(self.properties@).take(i + 1) =~= properties_json(
                self.properties@,
            ).take(i as int).push(kv));
            i = i + 1;
        }
        assert(properties_json(self.properties@).take(i as int) =~= properties_json(
            self.properties@,
        ));
        frame_payload(src.as_str(), out.as_str(), &members)
    }
}

/// Everything needed to invoke the generator for one app.
#[derive(Debug)]
pub struct CodeGenerator {
    /// Resolved path of the generator.
    pub lfc: String,
    pub properties: LFCProperties,
}

/// The generator's command line: its one argument is `--json=` and the payload.
pub open spec fn generator_args(payload: Seq<char>) -> Seq<Seq<char>> {
    seq!["--json="@ + payload]
}

impl CodeGenerator {
    pub fn new(src: String, out: String, lfc: String, properties: Vec<Property>) -> (r: CodeGenerator)
        requires
            keys_unique(properties@),
        ensures
            keys_unique(r.properties.properties@),
            r.lfc == lfc,
            r.properties.src == src,
            r.properties.out == out,
            r.properties.properties@.drop_last() == without_key(properties@, no_compile_key()),
            forces_no_compile(r.properties.properties@),
    {
        CodeGenerator { lfc, properties: LFCProperties::new(src, out, properties) }
    }

    /// The generator for one app: its main unit is the source, its output
    /// root the destination.
    pub fn for_app(app: &App, lfc: String) -> (r: CodeGenerator)
        ensures
            r.lfc == lfc,
            r.properties.src@ == app.main_reactor@,
            r.properties.out@ == app.output_root@,
            r.properties.properties@.len() == 1,
            forces_no_compile(r.properties.properties@),
    {
        let r = CodeGenerator::new(app.main_reactor.clone(), app.output_root.clone(), lfc, Vec::new());
        assert(without_key(Seq::<Property>::empty(), no_compile_key()) =~= Seq::<Property>::empty());
        r
    }

    /// The process that generates the app's code, run from the app's root:
    /// `<lfc> --json=<payload>`.
    pub fn generate_code(&self, app: &App) -> (r: Invocation)
        ensures
            r.program@ == self.lfc@,
            r.cwd@ == app.root_path@,
            strings_view(r.args@) == generator_args(
                payload_text(
                    json_string(self.properties.src@),
                    json_string(self.properties.out@),
                    properties_json(self.properties.properties@),
                ),
            ),
    {
        let payload = self.properties.to_json();
        let mut args: Vec<String> = Vec::new();
        args.push(String::from_str("--json=").concat(payload.as_str()));
        assert(strings_view(args@) =~= generator_args(payload@));
        Invocation { program: self.lfc.clone(), args, cwd: app.root_path.clone() }
    }
}

} // verus!
