//! Rendering of snapshots as comma-separated records.
//!
//! A record holds the eleven fields of a snapshot in a fixed column order,
//! separated by commas and terminated by a line feed. A field containing a
//! comma, a double quote, a line feed or a carriage return is written between
//! double quotes, with each embedded double quote doubled.

use crate::numfmt::{dec_spec, push_char, u64_to_dec};
use crate::snapshot::{SnapView, Snapshot};
use vstd::prelude::*;
use vstd::string::StrSliceExecFns;
use vstd::string::StringExecFns;

verus! {

/// A character that forces a field to be quoted: the field separator, the
/// quote character, or a record separator.
pub open spec fn is_special(c: char) -> bool {
    c == ',' || c == '"' || c == '\n' || c == '\r'
}

/// Whether a field must be written in quoted form.
pub open spec fn needs_quoting(f: Seq<char>) -> bool {
    exists|i: int| 0 <= i < f.len() && is_special(f[i])
}

/// How one character of a field is written inside a quoted field: a double
/// quote is doubled, every other character stands as it is.
pub open spec fn char_repr(c: char) -> Seq<char> {
    if c == '"' {
        seq!['"', '"']
    } else {
        seq![c]
    }
}

/// The body of a quoted field: each character in order, quotes doubled.
pub open spec fn escaped(f: Seq<char>) -> Seq<char>
    decreases f.len(),
{
    if f.len() == 0 {
        Seq::<char>::empty()
    } else {
        char_repr(f.first()) + escaped(f.drop_first())
    }
}

/// The written form of one field: quoted and escaped when it holds a special
/// character, verbatim otherwise.
pub open spec fn field_repr(f: Seq<char>) -> Seq<char> {
    if needs_quoting(f) {
        seq!['"'] + escaped(f) + seq!['"']
    } else {
        f
    }
}

/// The texts of the eleven fields of a snapshot, in the fixed column order:
/// `host_name, system_name, system_version, cpu_usage, memory_used,
/// memory_total, disk_used, disk_total, network_in, network_out, timestamp`.
pub open spec fn field_texts(v: SnapView) -> Seq<Seq<char>> {
    seq![
        v.host_name,
        v.system_name,
        v.system_version,
        v.cpu_usage,
        dec_spec(v.memory_used),
        dec_spec(v.memory_total),
        dec_spec(v.disk_used),
        dec_spec(v.disk_total),
        dec_spec(v.network_in),
        dec_spec(v.network_out),
        v.timestamp,
    ]
}

/// Field texts written in their escaped form and joined by commas.
pub open spec fn joined(fs: Seq<Seq<char>>) -> Seq<char>
    decreases fs.len(),
{
    if fs.len() == 0 {
        Seq::<char>::empty()
    } else if fs.len() == 1 {
        field_repr(fs[0])
    } else {
        joined(fs.drop_last()) + seq![','] + field_repr(fs.last())
    }
}

/// One record: the eleven fields of a snapshot in the fixed column order,
/// comma-separated, terminated by a line feed.
pub open spec fn row_spec(v: SnapView) -> Seq<char> {
    joined(field_texts(v)) + seq!['\n']
}

/// The names of the eleven columns, in their fixed order.
pub open spec fn header_texts() -> Seq<Seq<char>> {
    seq![
        "host_name"@,
        "system_name"@,
        "system_version"@,
        "cpu_usage"@,
        "memory_used"@,
        "memory_total"@,
        "disk_used"@,
        "disk_total"@,
        "network_in"@,
        "network_out"@,
        "timestamp"@,
    ]
}

/// The header record: the eleven column names, comma-joined and terminated
/// by a line feed, in the same shape as every data record.
pub open spec fn header_spec() -> Seq<char> {
    joined(header_texts()) + seq!['\n']
}

/// Renders the header record.
pub fn header_line() -> (r: String)
    ensures
        r@ == header_spec(),
{
    let mut names: Vec<String> = Vec::new();
    names.push(String::from_str("host_name"));
    names.push(String::from_str("system_name"));
    names.push(String::from_str("system_version"));
    names.push(String::from_str("cpu_usage"));
    names.push(String::from_str("memory_used"));
    names.push(String::from_str("memory_total"));
    names.push(String::from_str("disk_used"));
    names.push(String::from_str("disk_total"));
    names.push(String::from_str("network_in"));
    names.push(String::from_str("network_out"));
    names.push(String::from_str("timestamp"));
    proof {
        assert(names@.map_values(|t: String| t@) =~= header_texts());
    }
    let mut out: String = join_fields(&names);
    push_char(&mut out, '\n');
    proof {
        assert(out@ =~= header_spec());
    }
    out
}

/// Appending one character keeps the escaped form: the new character's
/// representation is appended at the end.
pub proof fn lemma_escaped_push(f: Seq<char>, c: char)
    ensures
        escaped(f.push(c)) == escaped(f) + char_repr(c),
    decreases f.len(),
{
    let g = f.push(c);
    if f.len() == 0 {
        assert(g[0] == c);
        assert(g.drop_first() =~= Seq::<char>::empty());
        assert(escaped(g) == char_repr(c) + escaped(Seq::<char>::empty()));
        assert(escaped(g) =~= escaped(f) + char_repr(c));
    } else {
        assert(g[0] == f[0]);
        assert(g.drop_first() =~= f.drop_first().push(c));
        lemma_escaped_push(f.drop_first(), c);
        assert(escaped(g) == char_repr(f.first()) + escaped(f.drop_first().push(c)));
        assert(escaped(g) =~= escaped(f) + char_repr(c));
    }
}

/// The body of a quoted field read back: doubled double quotes undone, in
/// one left-to-right pass.
pub open spec fn unescaped(s: Seq<char>) -> Seq<char>
    decreases s.len(),
{
    if s.len() == 0 {
        Seq::<char>::empty()
    } else if s.len() >= 2 && s[0] == '"' && s[1] == '"' {
        seq!['"'] + unescaped(s.skip(2))
    } else {
        seq![s.first()] + unescaped(s.drop_first())
    }
}

/// The written form of one field read back: for a quoted field the text
/// between the quotes with its doubling undone, otherwise the text itself.
pub open spec fn parse_field(s: Seq<char>) -> Seq<char> {
    if s.len() >= 2 && s.first() == '"' && s.last() == '"' {
        unescaped(s.subrange(1, s.len() - 1))
    } else {
        s
    }
}

/// Undoing the doubling recovers the original field body.
pub proof fn lemma_unescape_escaped(f: Seq<char>)
    ensures
        unescaped(escaped(f)) == f,
    decreases f.len(),
{
    if f.len() > 0 {
        let e = escaped(f);
        lemma_unescape_escaped(f.drop_first());
        if f.first() == '"' {
            assert(e[0] == '"');
            assert(e[1] == '"');
            assert(e.skip(2) =~= escaped(f.drop_first()));
            assert(unescaped(e) =~= f);
        } else {
            assert(e.first() == f.first());
            assert(e.drop_first() =~= escaped(f.drop_first()));
            assert(unescaped(e) =~= f);
        }
    }
}

/// Quoting and escaping lose nothing: reading back the written form of any
/// field yields the field itself. So no field, whatever characters it holds,
/// can add or remove columns or records of the log.
pub proof fn lemma_field_repr_round_trip(f: Seq<char>)
    ensures
        parse_field(field_repr(f)) == f,
{
    if needs_quoting(f) {
        let w = field_repr(f);
        assert(w.first() == '"');
        assert(w.last() == '"');
        assert(w.subrange(1, w.len() - 1) =~= escaped(f));
        lemma_unescape_escaped(f);
    } else {
        if f.len() >= 2 && f.first() == '"' && f.last() == '"' {
            assert(is_special(f[0]));
            assert(needs_quoting(f));
        }
    }
}

/// Every record carries exactly eleven fields, in the fixed column order,
/// comma-joined and terminated by a line feed.
pub proof fn lemma_row_has_eleven_fields(v: SnapView)
    ensures
        field_texts(v).len() == 11,
        row_spec(v) == joined(field_texts(v)) + seq!['\n'],
        field_texts(v)[0] == v.host_name,
        field_texts(v)[1] == v.system_name,
        field_texts(v)[2] == v.system_version,
        field_texts(v)[3] == v.cpu_usage,
        field_texts(v)[4] == dec_spec(v.memory_used),
        field_texts(v)[5] == dec_spec(v.memory_total),
        field_texts(v)[6] == dec_spec(v.disk_used),
        field_texts(v)[7] == dec_spec(v.disk_total),
        field_texts(v)[8] == dec_spec(v.network_in),
        field_texts(v)[9] == dec_spec(v.network_out),
        field_texts(v)[10] == v.timestamp,
{
}

/// The quote parity after reading `s` starting from parity `inq`: whether a
/// reader of the record then stands inside a quoted region.
pub open spec fn in_quotes_after(s: Seq<char>, inq: bool) -> bool
    decreases s.len(),
{
    if s.len() == 0 {
        inq
    } else {
        in_quotes_after(
            s.drop_first(),
            if s.first() == '"' {
                !inq
            } else {
                inq
            },
        )
    }
}

/// How often `c` occurs in `s` outside of quoted regions, reading from
/// parity `inq`. A reader of the record splits columns and records at such
/// occurrences only.
pub open spec fn toplevel_count(s: Seq<char>, inq: bool, c: char) -> nat
    decreases s.len(),
{
    if s.len() == 0 {
        0
    } else {
        (if !inq && s.first() == c {
            1nat
        } else {
            0nat
        }) + toplevel_count(
            s.drop_first(),
            if s.first() == '"' {
                !inq
            } else {
                inq
            },
            c,
        )
    }
}

/// The scan distributes over concatenation: the second part is read from the
/// parity the first part ends in.
pub proof fn lemma_scan_concat(a: Seq<char>, b: Seq<char>, inq: bool, c: char)
    ensures
        in_quotes_after(a + b, inq) == in_quotes_after(b, in_quotes_after(a, inq)),
        toplevel_count(a + b, inq, c) == toplevel_count(a, inq, c) + toplevel_count(
            b,
            in_quotes_after(a, inq),
            c,
        ),
    decreases a.len(),
{
    if a.len() == 0 {
        assert(a + b =~= b);
    } else {
        assert((a + b).drop_first() =~= a.drop_first() + b);
        assert((a + b).first() == a.first());
        let inq2 = if a.first() == '"' {
            !inq
        } else {
            inq
        };
        lemma_scan_concat(a.drop_first(), b, inq2, c);
    }
}

/// The scan of a single character.
proof fn lemma_scan_single(x: char, inq: bool, c: char)
    ensures
        in_quotes_after(seq![x], inq) == (if x == '"' {
            !inq
        } else {
            inq
        }),
        toplevel_count(seq![x], inq, c) == (if !inq && x == c {
            1nat
        } else {
            0nat
        }),
{
    reveal_with_fuel(in_quotes_after, 2);
    reveal_with_fuel(toplevel_count, 2);
    assert(seq![x].drop_first() =~= Seq::<char>::empty());
}

/// Reading the written form of any field never leaves a quoted region open
/// and never shows a comma or a record terminator at toplevel.
pub proof fn lemma_field_repr_scan(f: Seq<char>, c: char)
    requires
        c == ',' || c == '\n',
    ensures
        in_quotes_after(field_repr(f), false) == false,
        toplevel_count(field_repr(f), false, c) == 0,
{
    if needs_quoting(f) {
        let w = field_repr(f);
        assert(w =~= seq!['"'] + (escaped(f) + seq!['"']));
        lemma_scan_single('"', false, c);
        lemma_scan_single('"', true, c);
        lemma_escaped_scan(f, c);
        lemma_scan_concat(escaped(f), seq!['"'], true, c);
        lemma_scan_concat(seq!['"'], escaped(f) + seq!['"'], false, c);
    } else {
        lemma_plain_scan(f, c);
    }
}

/// A field with nothing special in it reads as itself: parity stays off and
/// nothing is counted.
proof fn lemma_plain_scan(f: Seq<char>, c: char)
    requires
        c == ',' || c == '\n',
        !needs_quoting(f),
    ensures
        in_quotes_after(f, false) == false,
        toplevel_count(f, false, c) == 0,
    decreases f.len(),
{
    if f.len() > 0 {
        assert(!is_special(f[0]));
        assert(forall|i: int| 0 <= i < f.drop_first().len() ==> f.drop_first()[i] == f[i + 1]);
        assert(!needs_quoting(f.drop_first()));
        lemma_plain_scan(f.drop_first(), c);
    }
}

/// The escaped body of a quoted field, read from inside the quotes, keeps
/// the parity on and shows nothing at toplevel: every doubled quote flips
/// the parity off for exactly one quote character.
proof fn lemma_escaped_scan(f: Seq<char>, c: char)
    requires
        c == ',' || c == '\n',
    ensures
        in_quotes_after(escaped(f), true) == true,
        toplevel_count(escaped(f), true, c) == 0,
    decreases f.len(),
{
    if f.len() > 0 {
        lemma_escaped_scan(f.drop_first(), c);
        if f.first() == '"' {
            assert(char_repr(f.first()) =~= seq!['"'] + seq!['"']);
            lemma_scan_single('"', true, c);
            lemma_scan_single('"', false, c);
            lemma_scan_concat(seq!['"'], seq!['"'], true, c);
            assert(in_quotes_after(char_repr(f.first()), true) == true);
            assert(toplevel_count(char_repr(f.first()), true, c) == 0);
        } else {
            assert(char_repr(f.first()) =~= seq![f.first()]);
            lemma_scan_single(f.first(), true, c);
        }
        lemma_scan_concat(char_repr(f.first()), escaped(f.drop_first()), true, c);
    }
}

/// A record shows its ten column separators and its one terminator at
/// toplevel, and nothing of its fields' own characters: a reader splitting
/// at toplevel recovers exactly the eleven columns and the one record.
pub proof fn lemma_row_scan(v: SnapView)
    ensures
        in_quotes_after(row_spec(v), false) == false,
        toplevel_count(row_spec(v), false, ',') == 10,
        toplevel_count(row_spec(v), false, '\n') == 1,
{
    lemma_joined_scan(field_texts(v), ',');
    lemma_joined_scan(field_texts(v), '\n');
    lemma_scan_single('\n', false, ',');
    lemma_scan_single('\n', false, '\n');
    lemma_scan_concat(joined(field_texts(v)), seq!['\n'], false, ',');
    lemma_scan_concat(joined(field_texts(v)), seq!['\n'], false, '\n');
}

/// Joined fields read with parity off, showing one toplevel comma per join
/// and no toplevel record terminator.
proof fn lemma_joined_scan(fs: Seq<Seq<char>>, c: char)
    requires
        c == ',' || c == '\n',
    ensures
        in_quotes_after(joined(fs), false) == false,
        c == ',' && fs.len() >= 1 ==> toplevel_count(joined(fs), false, c) == fs.len() - 1,
        c == '\n' ==> toplevel_count(joined(fs), false, c) == 0,
        fs.len() == 0 ==> toplevel_count(joined(fs), false, c) == 0,
    decreases fs.len(),
{
    if fs.len() == 0 {
    } else if fs.len() == 1 {
        lemma_field_repr_scan(fs[0], c);
    } else {
        lemma_joined_scan(fs.drop_last(), c);
        lemma_field_repr_scan(fs.last(), c);
        lemma_scan_single(',', false, c);
        lemma_scan_concat(joined(fs.drop_last()), seq![','], false, c);
        lemma_scan_concat(joined(fs.drop_last()) + seq![','], field_repr(fs.last()), false, c);
        assert(joined(fs) =~= (joined(fs.drop_last()) + seq![',']) + field_repr(fs.last()));
    }
}

/// The header record reads as exactly one row of eleven columns: one
/// toplevel record terminator, ten toplevel commas, no quoted region left
/// open.
pub proof fn lemma_header_scan()
    ensures
        in_quotes_after(header_spec(), false) == false,
        toplevel_count(header_spec(), false, '\n') == 1,
        toplevel_count(header_spec(), false, ',') == 10,
{
    lemma_joined_scan(header_texts(), '\n');
    lemma_joined_scan(header_texts(), ',');
    lemma_scan_single('\n', false, ',');
    lemma_scan_single('\n', false, '\n');
    lemma_scan_concat(joined(header_texts()), seq!['\n'], false, ',');
    lemma_scan_concat(joined(header_texts()), seq!['\n'], false, '\n');
}

/// Decides whether a field must be quoted.
fn field_needs_quoting(f: &str) -> (b: bool)
    ensures
        b == needs_quoting(f@),
{
    let n: usize = f.unicode_len();
    let mut i: usize = 0;
    while i < n
        invariant
            n == f@.len(),
            i <= n,
            forall|j: int| 0 <= j < i ==> !is_special(f@[j]),
        decreases n - i,
    {
        let c: char = f.get_char(i);
        if c == ',' || c == '"' || c == '\n' || c == '\r' {
            proof {
                assert(0 <= i < f@.len() && is_special(f@[i as int]));
            }
            return true;
        }
        i = i + 1;
    }
    false
}

/// Appends the escaped body of a field.
fn append_escaped(out: &mut String, f: &str)
    ensures
        final(out)@ == old(out)@ + escaped(f@),
{
    let n: usize = f.unicode_len();
    let mut i: usize = 0;
    while i < n
        invariant
            n == f@.len(),
            i <= n,
            out@ == old(out)@ + escaped(f@.take(i as int)),
        decreases n - i,
    {
        let c: char = f.get_char(i);
        if c == '"' {
            push_char(out, '"');
            push_char(out, '"');
        } else {
            push_char(out, c);
        }
        proof {
            assert(f@.take(i + 1) =~= f@.take(i as int).push(f@[i as int]));
            lemma_escaped_push(f@.take(i as int), f@[i as int]);
            assert(out@ =~= old(out)@ + escaped(f@.take(i + 1)));
        }
        i = i + 1;
    }
    proof {
        assert(f@.take(n as int) =~= f@);
    }
}

/// Appends the written form of one field.
fn append_field(out: &mut String, f: &str)
    ensures
        final(out)@ == old(out)@ + field_repr(f@),
{
    if field_needs_quoting(f) {
        push_char(out, '"');
        append_escaped(out, f);
        push_char(out, '"');
        proof {
            assert(out@ =~= old(out)@ + field_repr(f@));
        }
    } else {
        out.append(f);
    }
}

/// Joining one more field appends a comma and the field's written form.
proof fn lemma_joined_step(fs: Seq<Seq<char>>, i: int)
    requires
        1 <= i < fs.len(),
    ensures
        joined(fs.take(i + 1)) == joined(fs.take(i)) + seq![','] + field_repr(fs[i]),
{
    assert(fs.take(i + 1).drop_last() =~= fs.take(i));
    assert(fs.take(i + 1).last() == fs[i]);
}

/// Writes the given field texts, escaped, comma-separated.
fn join_fields(fields: &Vec<String>) -> (r: String)
    requires
        fields@.len() >= 1,
    ensures
        r@ == joined(fields@.map_values(|t: String| t@)),
{
    let ghost texts = fields@.map_values(|t: String| t@);
    let mut out: String = String::new();
    append_field(&mut out, fields[0].as_str());
    proof {
        assert(texts.take(1) =~= seq![texts[0]]);
        assert(out@ =~= joined(texts.take(1)));
    }
    let mut i: usize = 1;
    while i < fields.len()
        invariant
            texts == fields@.map_values(|t: String| t@),
            1 <= i <= fields@.len(),
            out@ == joined(texts.take(i as int)),
        decreases fields@.len() - i,
    {
        push_char(&mut out, ',');
        append_field(&mut out, fields[i].as_str());
        proof {
            lemma_joined_step(texts, i as int);
            assert(out@ =~= joined(texts.take(i + 1)));
        }
        i = i + 1;
    }
    proof {
        assert(texts.take(texts.len() as int) =~= texts);
    }
    out
}

/// Renders one snapshot as one record, in the fixed column order.
pub fn render_row(s: &Snapshot) -> (r: String)
    ensures
        r@ == row_spec(s@),
{
    let mut fields: Vec<String> = Vec::new();
    fields.push(s.host_name.clone());
    fields.push(s.system_name.clone());
    fields.push(s.system_version.clone());
    fields.push(s.cpu_usage.clone());
    fields.push(u64_to_dec(s.memory_used));
    fields.push(u64_to_dec(s.memory_total));
    fields.push(u64_to_dec(s.disk_used));
    fields.push(u64_to_dec(s.disk_total));
    fields.push(u64_to_dec(s.network_in));
    fields.push(u64_to_dec(s.network_out));
    fields.push(s.timestamp.clone());
    proof {
        assert(fields@.map_values(|t: String| t@) =~= field_texts(s@));
    }
    let mut out: String = join_fields(&fields);
    push_char(&mut out, '\n');
    proof {
        assert(out@ =~= row_spec(s@));
    }
    out
}

} // verus!
