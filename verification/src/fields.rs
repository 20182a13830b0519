//! The line parser: one line of sensor text becomes a field set, by trying a
//! JSON object, then a key=value list, then a bare number.

use vstd::prelude::*;
use crate::lineproto::{append_quoted, field_views, quote_spec};
use crate::text::{slice_chars, to_chars, to_string, trim, trim_spec};

verus! {

/// A field as the contracts see it: key and encoded value.
pub type FieldSpec = (Seq<char>, Seq<char>);

/// A decimal digit.
pub open spec fn is_digit(c: char) -> bool {
    '0' <= c <= '9'
}

/// First index at or after `i` that holds no digit.
pub open spec fn digit_run(s: Seq<char>, i: int) -> int
    decreases s.len() - i,
{
    if 0 <= i < s.len() && is_digit(s[i]) {
        digit_run(s, i + 1)
    } else {
        i
    }
}

/// Whether a sign stands at index `i`.
pub open spec fn sign_at(s: Seq<char>, i: int) -> bool {
    0 <= i < s.len() && (s[i] == '+' || s[i] == '-')
}

/// Number text: an optional sign, digits with an optional decimal point among
/// them (at least one digit in all), and an optional exponent of `e` or `E`,
/// an optional sign and at least one digit. Nothing may follow.
pub open spec fn is_number(s: Seq<char>) -> bool {
    let a: int = if sign_at(s, 0) { 1 } else { 0 };
    let b = digit_run(s, a);
    let c = if b < s.len() && s[b] == '.' { digit_run(s, b + 1) } else { b };
    let digits = (b - a) + (if c > b { c - b - 1 } else { 0 });
    let d: int = if sign_at(s, c + 1) { c + 2 } else { c + 1 };
    &&& digits > 0
    &&& (c == s.len() || (c < s.len() && (s[c] == 'e' || s[c] == 'E') && digit_run(s, d) > d
        && digit_run(s, d) == s.len()))
}

fn scan_digits(v: &Vec<char>, from: usize) -> (to: usize)
    requires
        from <= v@.len(),
    ensures
        to == digit_run(v@, from as int),
        from <= to <= v@.len(),
{
    let mut i: usize = from;
    while i < v.len() && '0' <= v[i] && v[i] <= '9'
        invariant
            from <= i <= v@.len(),
            digit_run(v@, from as int) == digit_run(v@, i as int),
        decreases v@.len() - i,
    {
        i = i + 1;
    }
    i
}

fn has_sign_at(v: &Vec<char>, i: usize) -> (b: bool)
    ensures
        b == sign_at(v@, i as int),
{
    i < v.len() && (v[i] == '+' || v[i] == '-')
}

/// Whether `v` is number text.
pub fn is_number_text(v: &Vec<char>) -> (ok: bool)
    ensures
        ok == is_number(v@),
{
    let n: usize = v.len();
    let a: usize = if has_sign_at(v, 0) { 1 } else { 0 };
    let b: usize = scan_digits(v, a);
    let c: usize = if b < n && v[b] == '.' { scan_digits(v, b + 1) } else { b };
    let digits: usize = (b - a) + (if c > b { c - b - 1 } else { 0 });
    if digits == 0 {
        return false;
    }
    if c == n {
        return true;
    }
    if !(v[c] == 'e' || v[c] == 'E') {
        return false;
    }
    let d: usize = if has_sign_at(v, c + 1) { c + 2 } else { c + 1 };
    let e: usize = scan_digits(v, d);
    e > d && e == n
}

/// The word `true`, in any mix of upper and lower case.
pub open spec fn is_true_word(s: Seq<char>) -> bool {
    &&& s.len() == 4
    &&& (s[0] == 't' || s[0] == 'T')
    &&& (s[1] == 'r' || s[1] == 'R')
    &&& (s[2] == 'u' || s[2] == 'U')
    &&& (s[3] == 'e' || s[3] == 'E')
}

/// The word `false`, in any mix of upper and lower case.
pub open spec fn is_false_word(s: Seq<char>) -> bool {
    &&& s.len() == 5
    &&& (s[0] == 'f' || s[0] == 'F')
    &&& (s[1] == 'a' || s[1] == 'A')
    &&& (s[2] == 'l' || s[2] == 'L')
    &&& (s[3] == 's' || s[3] == 'S')
    &&& (s[4] == 'e' || s[4] == 'E')
}

/// The encoded value of a key=value token's right-hand side: number text
/// passes through trimmed, `true` and `false` become lower case, anything
/// else becomes a quoted string.
pub open spec fn kv_value(v: Seq<char>) -> Seq<char> {
    if is_number(trim_spec(v)) {
        trim_spec(v)
    } else if is_true_word(v) {
        "true"@
    } else if is_false_word(v) {
        "false"@
    } else {
        quote_spec(trim_spec(v))
    }
}

/// First index at or after `i` that holds an equals sign, or the length.
pub open spec fn find_equals(t: Seq<char>, i: int) -> int
    decreases t.len() - i,
{
    if 0 <= i < t.len() && t[i] != '=' {
        find_equals(t, i + 1)
    } else {
        i
    }
}

/// The field that one token gives: none unless it holds an equals sign with
/// something before it; the key is trimmed.
pub open spec fn kv_token(tok: Seq<char>) -> Seq<FieldSpec> {
    let eq = find_equals(tok, 0);
    if eq <= 0 || eq >= tok.len() {
        Seq::<FieldSpec>::empty()
    } else {
        seq![(trim_spec(tok.subrange(0, eq)), kv_value(tok.subrange(eq + 1, tok.len() as int)))]
    }
}

/// Commas and spaces separate tokens.
pub open spec fn is_separator(c: char) -> bool {
    c == ',' || c == ' '
}

/// The fields of the tokens of `s` from `i` on, where the token that is being
/// read began at `start`.
pub open spec fn kv_scan(s: Seq<char>, start: int, i: int) -> Seq<FieldSpec>
    decreases s.len() - i,
{
    if i < 0 || start < 0 || start > i {
        Seq::<FieldSpec>::empty()
    } else if i >= s.len() {
        kv_token(s.subrange(start, s.len() as int))
    } else if is_separator(s[i]) {
        kv_token(s.subrange(start, i)) + kv_scan(s, i + 1, i + 1)
    } else {
        kv_scan(s, start, i + 1)
    }
}

/// The fields of a key=value line, in the order of its tokens.
pub open spec fn kv_fields(s: Seq<char>) -> Seq<FieldSpec> {
    kv_scan(s, 0, 0)
}

/// A field set, or nothing where it would be empty.
pub open spec fn non_empty(fields: Seq<FieldSpec>) -> Option<Seq<FieldSpec>> {
    if fields.len() == 0 {
        None
    } else {
        Some(fields)
    }
}

/// The view of an optional field set.
pub open spec fn fields_view(r: Option<Vec<(String, String)>>) -> Option<Seq<FieldSpec>> {
    match r {
        Some(fields) => Some(field_views(fields@)),
        None => None,
    }
}

fn push_field(acc: &mut Vec<(String, String)>, key: String, value: String)
    ensures
        field_views(final(acc)@) == field_views(old(acc)@).push((key@, value@)),
{
    acc.push((key, value));
    proof {
        assert(field_views(final(acc)@) =~= field_views(old(acc)@).push((key@, value@)));
    }
}

fn is_true(v: &Vec<char>) -> (b: bool)
    ensures
        b == is_true_word(v@),
{
    v.len() == 4 && (v[0] == 't' || v[0] == 'T') && (v[1] == 'r' || v[1] == 'R') && (v[2] == 'u'
        || v[2] == 'U') && (v[3] == 'e' || v[3] == 'E')
}

fn is_false(v: &Vec<char>) -> (b: bool)
    ensures
        b == is_false_word(v@),
{
    v.len() == 5 && (v[0] == 'f' || v[0] == 'F') && (v[1] == 'a' || v[1] == 'A') && (v[2] == 'l'
        || v[2] == 'L') && (v[3] == 's' || v[3] == 'S') && (v[4] == 'e' || v[4] == 'E')
}

fn encode_kv_value(v: &Vec<char>) -> (r: String)
    ensures
        r@ == kv_value(v@),
{
    let trimmed = trim(v);
    if is_number_text(&trimmed) {
        to_string(&trimmed)
    } else if is_true(v) {
        "true".to_owned()
    } else if is_false(v) {
        "false".to_owned()
    } else {
        let mut out: Vec<char> = Vec::new();
        append_quoted(&mut out, &trimmed);
        proof {
            assert(out@ =~= quote_spec(trimmed@));
        }
        to_string(&out)
    }
}

fn push_kv_token(acc: &mut Vec<(String, String)>, tok: &Vec<char>)
    ensures
        field_views(final(acc)@) == field_views(old(acc)@) + kv_token(tok@),
{
    let mut eq: usize = 0;
    while eq < tok.len() && tok[eq] != '='
        invariant
            eq <= tok@.len(),
            find_equals(tok@, 0) == find_equals(tok@, eq as int),
        decreases tok@.len() - eq,
    {
        eq = eq + 1;
    }
    if eq == 0 || eq >= tok.len() {
        proof {
            assert(field_views(acc@) + kv_token(tok@) =~= field_views(acc@));
        }
        return ;
    }
    let key = trim(&slice_chars(tok, 0, eq));
    let value = slice_chars(tok, eq + 1, tok.len());
    let key_text = to_string(&key);
    let value_text = encode_kv_value(&value);
    push_field(acc, key_text, value_text);
    proof {
        assert(field_views(final(acc)@) =~= field_views(old(acc)@) + kv_token(tok@));
    }
}

/// Reads a key=value list: tokens are separated by commas and spaces, a token
/// counts when it holds `=` after a non-empty key, and is split at its first
/// `=`. Gives nothing when no token counts.
pub fn parse_kv_fields(s: &str) -> (r: Option<Vec<(String, String)>>)
    ensures
        fields_view(r) == non_empty(kv_fields(s@)),
{
    let line = to_chars(s);
    let n: usize = line.len();
    let mut got: Vec<(String, String)> = Vec::new();
    let mut start: usize = 0;
    let mut i: usize = 0;
    proof {
        assert(field_views(got@) + kv_scan(line@, 0, 0) =~= kv_fields(s@));
    }
    while i < n
        invariant
            start <= i <= n == line@.len(),
            line@ == s@,
            kv_fields(s@) == field_views(got@) + kv_scan(line@, start as int, i as int),
        decreases n - i,
    {
        if line[i] == ',' || line[i] == ' ' {
            let tok = slice_chars(&line, start, i);
            let ghost before = field_views(got@);
            push_kv_token(&mut got, &tok);
            proof {
                assert((before + kv_token(tok@)) + kv_scan(line@, i + 1, i + 1) =~= before + (
                kv_token(tok@) + kv_scan(line@, i + 1, i + 1)));
            }
            start = i + 1;
        }
        i = i + 1;
    }
    let tok = slice_chars(&line, start, n);
    push_kv_token(&mut got, &tok);
    if got.len() == 0 {
        None
    } else {
        Some(got)
    }
}

/// What a bare number gives: the single field `value`, holding the trimmed
/// text, when that text is number text.
pub open spec fn single_number(s: Seq<char>) -> Option<Seq<FieldSpec>> {
    if is_number(trim_spec(s)) {
        Some(seq![("value"@, trim_spec(s))])
    } else {
        None
    }
}

/// Reads a line that holds one number and nothing else.
pub fn parse_single_number(s: &str) -> (r: Option<Vec<(String, String)>>)
    ensures
        fields_view(r) == single_number(s@),
{
    let trimmed = trim(&to_chars(s));
    if is_number_text(&trimmed) {
        let mut got: Vec<(String, String)> = Vec::new();
        push_field(&mut got, "value".to_owned(), to_string(&trimmed));
        proof {
            assert(field_views(got@) =~= seq![("value"@, trim_spec(s@))]);
        }
        Some(got)
    } else {
        None
    }
}

/// One member of a JSON object, as far as the parser reads it.
#[derive(Clone, Debug)]
pub enum JsonMember {
    /// A number, as its numeric text.
    Number(String),
    /// `true` or `false`.
    Bool(bool),
    /// A string, unescaped.
    Text(String),
    /// Null, an array or an object.
    Other,
}

/// A JSON member as the contracts see it.
pub enum JsonItem {
    Number(Seq<char>),
    Bool(bool),
    Text(Seq<char>),
    Other,
}

impl JsonMember {
    pub open spec fn item(self) -> JsonItem {
        match self {
            JsonMember::Number(t) => JsonItem::Number(t@),
            JsonMember::Bool(b) => JsonItem::Bool(b),
            JsonMember::Text(t) => JsonItem::Text(t@),
            JsonMember::Other => JsonItem::Other,
        }
    }
}

/// The members of an object as pairs of key and item.
pub open spec fn member_views(members: Seq<(String, JsonMember)>) -> Seq<(Seq<char>, JsonItem)> {
    Seq::new(members.len(), |i: int| (members[i].0@, members[i].1.item()))
}

/// The view of an optional member list.
pub open spec fn members_view(r: Option<Vec<(String, JsonMember)>>) -> Option<
    Seq<(Seq<char>, JsonItem)>,
> {
    match r {
        Some(members) => Some(member_views(members@)),
        None => None,
    }
}

/// The members of the JSON object that a text parses to, in the order in
/// which the JSON reader hands them out; nothing where the text is no JSON
/// object.
pub uninterp spec fn json_members(text: Seq<char>) -> Option<Seq<(Seq<char>, JsonItem)>>;

/// `serde_json::from_str` to a `Value`, then `Value::as_object`: the members
/// of the object that `s` holds, each number as the text that
/// `serde_json::Number` displays; nothing where `s` is not JSON or not an
/// object. The result depends on `s` alone.
#[verifier::external_body]
fn json_object_members(s: &str) -> (r: Option<Vec<(String, JsonMember)>>)
    ensures
        members_view(r) == json_members(s@),
{
    let value: serde_json::Value = serde_json::from_str(s).ok()?;
    let object = value.as_object()?;
    Some(object.iter().map(|(k, v)| (k.clone(), match v {
        serde_json::Value::Number(n) => JsonMember::Number(n.to_string()),
        serde_json::Value::Bool(b) => JsonMember::Bool(*b),
        serde_json::Value::String(t) => JsonMember::Text(t.clone()),
        serde_json::Value::Null => JsonMember::Other,
        serde_json::Value::Array(_) => JsonMember::Other,
        serde_json::Value::Object(_) => JsonMember::Other,
    })).collect())
}

/// The field that one member gives: a number as its text, a boolean as
/// `true` or `false`, a string quoted; anything else gives none.
pub open spec fn json_member_field(member: (Seq<char>, JsonItem)) -> Seq<FieldSpec> {
    match member.1 {
        JsonItem::Number(t) => seq![(member.0, t)],
        JsonItem::Bool(b) => seq![(member.0, if b { "true"@ } else { "false"@ })],
        JsonItem::Text(t) => seq![(member.0, quote_spec(t))],
        JsonItem::Other => Seq::<FieldSpec>::empty(),
    }
}

/// The fields of an object's members, in their order.
pub open spec fn json_fields_of(members: Seq<(Seq<char>, JsonItem)>) -> Seq<FieldSpec>
    decreases members.len(),
{
    if members.len() == 0 {
        Seq::<FieldSpec>::empty()
    } else {
        json_fields_of(members.drop_last()) + json_member_field(members.last())
    }
}

/// The field set of an optional member list.
pub open spec fn json_fields_spec(members: Option<Seq<(Seq<char>, JsonItem)>>) -> Option<
    Seq<FieldSpec>,
> {
    match members {
        Some(m) => non_empty(json_fields_of(m)),
        None => None,
    }
}

/// Turns the members of a JSON object into a field set: scalar members become
/// fields, the others are dropped; nothing when no field is left.
pub fn json_fields(members: &Vec<(String, JsonMember)>) -> (r: Option<Vec<(String, String)>>)
    ensures
        fields_view(r) == non_empty(json_fields_of(member_views(members@))),
{
    let ghost views = member_views(members@);
    let mut got: Vec<(String, String)> = Vec::new();
    let mut i: usize = 0;
    proof {
        assert(field_views(got@) =~= json_fields_of(views.take(0)));
    }
    while i < members.len()
        invariant
            i <= members@.len(),
            views == member_views(members@),
            field_views(got@) == json_fields_of(views.take(i as int)),
        decreases members@.len() - i,
    {
        proof {
            let next = views.take(i + 1);
            assert(next.drop_last() =~= views.take(i as int));
            assert(next.last() == (members@[i as int].0@, members@[i as int].1.item()));
        }
        let ghost before = field_views(got@);
        match &members[i].1 {
            JsonMember::Number(t) => {
                push_field(&mut got, members[i].0.clone(), t.clone());
            },
            JsonMember::Bool(b) => {
                let word: String = if *b { "true".to_owned() } else { "false".to_owned() };
                push_field(&mut got, members[i].0.clone(), word);
            },
            JsonMember::Text(t) => {
                let chars = to_chars(t.as_str());
                let mut out: Vec<char> = Vec::new();
                append_quoted(&mut out, &chars);
                proof {
                    assert(out@ =~= quote_spec(t@));
                }
                push_field(&mut got, members[i].0.clone(), to_string(&out));
            },
            JsonMember::Other => {},
        }
        proof {
            assert(field_views(got@) =~= before + json_member_field(views[i as int]));
        }
        i = i + 1;
    }
    proof {
        assert(views.take(members@.len() as int) =~= views);
    }
    if got.len() == 0 {
        None
    } else {
        Some(got)
    }
}

/// Reads a line as a JSON object and turns its scalar members into fields.
pub fn parse_json_fields(s: &str) -> (r: Option<Vec<(String, String)>>)
    ensures
        fields_view(r) == json_fields_spec(json_members(s@)),
{
    match json_object_members(s) {
        Some(members) => json_fields(&members),
        None => None,
    }
}

/// The field set of a line: the JSON reading where it gives one, else the
/// key=value reading where it gives one, else the bare-number reading.
pub open spec fn line_fields(s: Seq<char>) -> Option<Seq<FieldSpec>> {
    if json_fields_spec(json_members(s)) is Some {
        json_fields_spec(json_members(s))
    } else if kv_fields(s).len() > 0 {
        Some(kv_fields(s))
    } else {
        single_number(s)
    }
}

/// Parses one line of sensor text, trying the three readings in order.
pub fn parse_fields(line: &str) -> (r: Option<Vec<(String, String)>>)
    ensures
        fields_view(r) == line_fields(line@),
{
    match parse_json_fields(line) {
        Some(fields) => Some(fields),
        None => match parse_kv_fields(line) {
            Some(fields) => Some(fields),
            None => parse_single_number(line),
        },
    }
}

/// Order of the readings: whenever the key=value reading gives fields and the
/// JSON reading gives none, the line's fields are the key=value ones, whatever
/// the bare-number reading would say.
pub proof fn lemma_kv_before_number(s: Seq<char>)
    requires
        json_fields_spec(json_members(s)) is None,
        kv_fields(s).len() > 0,
    ensures
        line_fields(s) == Some(kv_fields(s)),
{
}

/// A line has no fields exactly when all three readings give none.
pub proof fn lemma_no_fields_iff(s: Seq<char>)
    ensures
        line_fields(s) is None <==> (json_fields_spec(json_members(s)) is None && kv_fields(
            s,
        ).len() == 0 && single_number(s) is None),
{
}

} // verus!
