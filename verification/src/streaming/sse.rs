//! Server-Sent Events decoding.
//!
//! A stream is a sequence of text frames separated by a blank line
//! (`"\n\n"`). Each frame is a sequence of lines; a line `event: name` names
//! the event, each line `data: value` adds a line of data, and lines that are
//! empty, start with `:`, or carry another field are ignored. A frame without
//! data lines is no event.

use vstd::prelude::*;

use crate::externs::{push_char, str_from_utf8, utf8_error_message};
use vstd::utf8::{decode_utf8, valid_utf8};
use crate::sdk_core::error::OpenAIError;
use crate::text::{
    all_white_space, chars_of, extend_chars, has_non_white_space, is_white_space, opt_string_view,
    skip_white_space, string_from_chars, trim_start_ws,
};

verus! {

/// The view of an event: its `event` name, if any, and its data.
pub type SpecSseEvent = (Option<Seq<char>>, Seq<char>);

/// The fields that the lines of a frame have set so far: the last event
/// name, and the data lines in order.
pub type SpecFields = (Option<Seq<char>>, Seq<Seq<char>>);

/// One event of a Server-Sent Events stream.
#[derive(Debug, Clone, PartialEq, Eq)]
pub struct SseEvent {
    pub event: Option<String>,
    pub data: String,
}

impl View for SseEvent {
    type V = SpecSseEvent;

    open spec fn view(&self) -> SpecSseEvent {
        (opt_string_view(self.event), self.data@)
    }
}

/// The view of an optional event.
pub open spec fn opt_event_view(e: Option<SseEvent>) -> Option<SpecSseEvent> {
    match e {
        Some(e) => Some(e@),
        None => None,
    }
}

/// `s` split at every `'\n'`, as `str::split('\n')` splits it: the last
/// piece is what follows the last newline, and may be empty.
pub open spec fn split_at_newlines(s: Seq<char>) -> Seq<Seq<char>>
    decreases s.len(),
{
    if s.len() == 0 {
        seq![Seq::empty()]
    } else {
        let p = split_at_newlines(s.drop_last());
        if s.last() == '\n' {
            p.push(Seq::empty())
        } else {
            p.update(p.len() - 1, p.last().push(s.last()))
        }
    }
}

/// `s` without one `'\r'` at its end.
pub open spec fn strip_cr(s: Seq<char>) -> Seq<char> {
    if s.len() > 0 && s.last() == '\r' {
        s.drop_last()
    } else {
        s
    }
}

/// `s` begins with `p`.
pub open spec fn has_prefix(s: Seq<char>, p: Seq<char>) -> bool {
    p.len() <= s.len() && s.take(p.len() as int) == p
}

pub open spec fn event_prefix() -> Seq<char> {
    seq!['e', 'v', 'e', 'n', 't', ':']
}

pub open spec fn data_prefix() -> Seq<char> {
    seq!['d', 'a', 't', 'a', ':']
}

/// What one line of a frame contributes: nothing, an event name (`true`),
/// or a data line (`false`), with the value's leading white space trimmed.
pub open spec fn line_field(line: Seq<char>) -> Option<(bool, Seq<char>)> {
    if line.len() == 0 || line[0] == ':' {
        None
    } else if has_prefix(line, event_prefix()) {
        Some((true, trim_start_ws(line.skip(6))))
    } else if has_prefix(line, data_prefix()) {
        Some((false, trim_start_ws(line.skip(5))))
    } else {
        None
    }
}

/// The fields after a line's contribution: a later event name replaces an
/// earlier one; data lines accumulate.
pub open spec fn apply_field(st: SpecFields, f: Option<(bool, Seq<char>)>) -> SpecFields {
    match f {
        None => st,
        Some((is_event, v)) => if is_event {
            (Some(v), st.1)
        } else {
            (st.0, st.1.push(v))
        },
    }
}

/// The fields after the newline-terminated lines `parts`; `str::lines` drops
/// one `'\r'` before the newline and the decoder drops one more.
pub open spec fn apply_terminated_lines(st: SpecFields, parts: Seq<Seq<char>>) -> SpecFields
    decreases parts.len(),
{
    if parts.len() == 0 {
        st
    } else {
        apply_field(
            apply_terminated_lines(st, parts.drop_last()),
            line_field(strip_cr(strip_cr(parts.last()))),
        )
    }
}

/// The fields of a whole frame; its last line, which no newline ends, loses
/// only the one `'\r'` that the decoder drops.
pub open spec fn frame_fields(raw: Seq<char>) -> SpecFields {
    let parts = split_at_newlines(raw);
    apply_field(
        apply_terminated_lines((None, Seq::empty()), parts.drop_last()),
        line_field(strip_cr(parts.last())),
    )
}

/// Data lines joined by `'\n'`.
pub open spec fn join_lines(lines: Seq<Seq<char>>) -> Seq<char>
    decreases lines.len(),
{
    if lines.len() == 0 {
        Seq::empty()
    } else if lines.len() == 1 {
        lines[0]
    } else {
        join_lines(lines.drop_last()) + seq!['\n'] + lines.last()
    }
}

/// The event that a frame holds: none when it has no data line; else its
/// last event name and its data lines joined by newlines.
pub open spec fn frame_event(raw: Seq<char>) -> Option<SpecSseEvent> {
    let st = frame_fields(raw);
    if st.1.len() == 0 {
        None
    } else {
        Some((st.0, join_lines(st.1)))
    }
}

proof fn lemma_split_nonempty(s: Seq<char>)
    ensures
        split_at_newlines(s).len() >= 1,
    decreases s.len(),
{
    if s.len() > 0 {
        lemma_split_nonempty(s.drop_last());
    }
}

proof fn lemma_split_push(s: Seq<char>, c: char)
    ensures
        c == '\n' ==> split_at_newlines(s.push(c)) == split_at_newlines(s).push(Seq::empty()),
        c != '\n' ==> split_at_newlines(s.push(c)).drop_last() == split_at_newlines(s).drop_last(),
        c != '\n' ==> split_at_newlines(s.push(c)).last() == split_at_newlines(s).last().push(c),
        split_at_newlines(s.push(c)).len() >= 1,
{
    lemma_split_nonempty(s);
    assert(s.push(c).drop_last() =~= s);
    let p = split_at_newlines(s);
    if c != '\n' {
        assert(p.update(p.len() - 1, p.last().push(c)).drop_last() =~= p.drop_last());
    }
}

/// `s` holds no newline.
pub open spec fn one_line(s: Seq<char>) -> bool {
    forall|i: int| 0 <= i < s.len() ==> s[i] != '\n'
}

/// A value that a field line carries as it stands: one line, which starts
/// with no white space and ends with no carriage return.
pub open spec fn plain_value(v: Seq<char>) -> bool {
    &&& one_line(v)
    &&& v.len() > 0 ==> !is_white_space(v[0]) && v.last() != '\r'
}

proof fn lemma_split_one_line(t: Seq<char>)
    requires
        one_line(t),
    ensures
        split_at_newlines(t) == seq![t],
    decreases t.len(),
{
    if t.len() > 0 {
        let d = t.drop_last();
        assert(one_line(d)) by {
            assert forall|i: int| 0 <= i < d.len() implies d[i] != '\n' by {
                assert(d[i] == t[i]);
            }
        }
        lemma_split_one_line(d);
        assert(d.push(t.last()) =~= t);
        lemma_split_push(d, t.last());
        assert(split_at_newlines(t).drop_last() =~= Seq::<Seq<char>>::empty());
        assert(split_at_newlines(t) =~= seq![t]);
    } else {
        assert(t =~= Seq::<char>::empty());
    }
}

proof fn lemma_split_append_line(s: Seq<char>, t: Seq<char>)
    requires
        one_line(t),
    ensures
        split_at_newlines(s + seq!['\n'] + t) == split_at_newlines(s).push(t),
    decreases t.len(),
{
    if t.len() == 0 {
        assert(t =~= Seq::<char>::empty());
        assert(s + seq!['\n'] + t =~= s.push('\n'));
        lemma_split_push(s, '\n');
    } else {
        let d = t.drop_last();
        assert(one_line(d)) by {
            assert forall|i: int| 0 <= i < d.len() implies d[i] != '\n' by {
                assert(d[i] == t[i]);
            }
        }
        let x = s + seq!['\n'] + d;
        let c = t.last();
        lemma_split_append_line(s, d);
        assert(s + seq!['\n'] + t =~= x.push(c));
        assert(t[t.len() - 1] != '\n');
        lemma_split_push(x, c);
        assert(d.push(c) =~= t);
        let r = split_at_newlines(x.push(c));
        let q = split_at_newlines(x);
        let p = split_at_newlines(s);
        assert(q == p.push(d));
        assert(q.drop_last() =~= p);
        assert(r.drop_last() == p);
        assert(r.last() == d.push(c));
        assert(r =~= r.drop_last().push(r.last()));
        assert(r =~= p.push(t));
    }
}

proof fn lemma_split_two_lines(s: Seq<char>, t: Seq<char>)
    requires
        one_line(s),
        one_line(t),
    ensures
        split_at_newlines(s + seq!['\n'] + t) == seq![s, t],
{
    lemma_split_one_line(s);
    lemma_split_append_line(s, t);
    assert(seq![s].push(t) =~= seq![s, t]);
}

proof fn lemma_line_field_of(p: Seq<char>, v: Seq<char>)
    requires
        p == data_prefix() || p == event_prefix(),
    ensures
        line_field(p + v) == Some((p == event_prefix(), trim_start_ws(v))),
{
    let line = p + v;
    assert(line[0] == p[0]);
    assert(line.take(p.len() as int) =~= p);
    assert(line.skip(p.len() as int) =~= v);
    if p == data_prefix() && 6 <= line.len() {
        assert(line.take(6)[0] == 'd');
    }
}

proof fn lemma_no_cr(p: Seq<char>, v: Seq<char>)
    requires
        p == data_prefix() || p == event_prefix(),
        plain_value(v),
    ensures
        strip_cr(p + v) == p + v,
{
    if v.len() > 0 {
        assert((p + v).last() == v.last());
    } else {
        assert((p + v).last() == p.last());
    }
}

proof fn lemma_trim_plain(v: Seq<char>)
    requires
        plain_value(v),
    ensures
        trim_start_ws(v) == v,
{
}

/// A frame of one data line carries the line's value as it stands: where
/// the value starts with no white space (and is one line, ending with no
/// carriage return), the event's data is exactly that value, trailing
/// spaces included, and the event has no name.
pub proof fn lemma_data_line_kept(v: Seq<char>)
    requires
        plain_value(v),
    ensures
        frame_event(data_prefix() + v) == Some((None::<Seq<char>>, v)),
{
    let raw = data_prefix() + v;
    assert(one_line(raw)) by {
        assert forall|i: int| 0 <= i < raw.len() implies raw[i] != '\n' by {
            if i >= 5 {
                assert(raw[i] == v[i - 5]);
            }
        }
    }
    lemma_split_one_line(raw);
    assert(seq![raw].drop_last() =~= Seq::<Seq<char>>::empty());
    lemma_no_cr(data_prefix(), v);
    lemma_line_field_of(data_prefix(), v);
    lemma_trim_plain(v);
    assert(Seq::<Seq<char>>::empty().push(v) =~= seq![v]);
}

/// White space between `data:` and the value is not part of the data: it
/// is the same whether the value is written right after the colon or after
/// any white space.
pub proof fn lemma_data_leading_space_dropped(w: Seq<char>, v: Seq<char>)
    requires
        all_white_space(w),
        one_line(w),
        plain_value(v),
    ensures
        frame_event(data_prefix() + (w + v)) == Some((None::<Seq<char>>, v)),
    decreases w.len(),
{
    let x = w + v;
    lemma_trim_ws_prefix(w, v);
    lemma_trim_plain(v);
    let raw = data_prefix() + x;
    assert(one_line(raw)) by {
        assert forall|i: int| 0 <= i < raw.len() implies raw[i] != '\n' by {
            if 5 <= i < 5 + w.len() {
                assert(raw[i] == w[i - 5]);
            } else if i >= 5 + w.len() {
                assert(raw[i] == v[i - 5 - w.len()]);
            }
        }
    }
    lemma_split_one_line(raw);
    assert(seq![raw].drop_last() =~= Seq::<Seq<char>>::empty());
    if v.len() > 0 {
        assert(raw.last() == v.last());
    } else if w.len() > 0 {
        assert(raw.last() == w.last());
        assert(is_white_space(w[w.len() - 1]));
        if raw.last() == '\r' {
            assert(strip_cr(raw) =~= data_prefix() + w.drop_last());
            lemma_trim_ws_prefix(w.drop_last(), v);
            assert(w.drop_last() + v =~= w.drop_last());
            lemma_line_field_of(data_prefix(), w.drop_last());
        }
    } else {
        assert(raw.last() == ':');
    }
    lemma_line_field_of(data_prefix(), x);
    assert(Seq::<Seq<char>>::empty().push(v) =~= seq![v]);
}

proof fn lemma_trim_ws_prefix(w: Seq<char>, v: Seq<char>)
    requires
        all_white_space(w),
    ensures
        trim_start_ws(w + v) == trim_start_ws(v),
    decreases w.len(),
{
    if w.len() > 0 {
        assert((w + v)[0] == w[0]);
        assert((w + v).drop_first() =~= w.drop_first() + v);
        assert(all_white_space(w.drop_first())) by {
            assert forall|i: int| 0 <= i < w.drop_first().len() implies is_white_space(
                #[trigger] w.drop_first()[i],
            ) by {
                assert(w.drop_first()[i] == w[i + 1]);
            }
        }
        lemma_trim_ws_prefix(w.drop_first(), v);
    } else {
        assert(w + v =~= v);
    }
}

/// Data lines are joined by a newline, each kept as it stands: the frame
/// `data:a` newline `data:b` carries the data `a`, a newline, `b`.
pub proof fn lemma_data_lines_joined(a: Seq<char>, b: Seq<char>)
    requires
        plain_value(a),
        plain_value(b),
    ensures
        frame_event(data_prefix() + a + seq!['\n'] + (data_prefix() + b)) == Some(
            (None::<Seq<char>>, a + seq!['\n'] + b),
        ),
{
    let la = data_prefix() + a;
    let lb = data_prefix() + b;
    lemma_one_line_field(data_prefix(), a);
    lemma_one_line_field(data_prefix(), b);
    lemma_split_two_lines(la, lb);
    assert(seq![la, lb].drop_last() =~= seq![la]);
    assert(seq![la].drop_last() =~= Seq::<Seq<char>>::empty());
    assert(seq![la].last() == la);
    lemma_no_cr(data_prefix(), a);
    lemma_no_cr(data_prefix(), b);
    lemma_line_field_of(data_prefix(), a);
    lemma_line_field_of(data_prefix(), b);
    lemma_trim_plain(a);
    lemma_trim_plain(b);
    let init: SpecFields = (None, Seq::empty());
    let first = apply_terminated_lines(init, seq![la]);
    assert(apply_terminated_lines(init, Seq::<Seq<char>>::empty()) == init);
    assert(first == apply_field(init, line_field(la)));
    assert(Seq::<Seq<char>>::empty().push(a) =~= seq![a]);
    assert(first == (None::<Seq<char>>, seq![a]));
    let st = frame_fields(la + seq!['\n'] + lb);
    assert(st == apply_field(first, line_field(lb)));
    assert(seq![a].push(b) =~= seq![a, b]);
    assert(st.1 =~= seq![a, b]);
    assert(seq![a, b].drop_last() =~= seq![a]);
    assert(join_lines(seq![a]) == a);
}

/// The `event:` line names the event and the data line carries the data,
/// each value kept as it stands.
pub proof fn lemma_named_event(n: Seq<char>, v: Seq<char>)
    requires
        plain_value(n),
        plain_value(v),
    ensures
        frame_event(event_prefix() + n + seq!['\n'] + (data_prefix() + v)) == Some((Some(n), v)),
{
    let ln = event_prefix() + n;
    let lv = data_prefix() + v;
    lemma_one_line_field(event_prefix(), n);
    lemma_one_line_field(data_prefix(), v);
    lemma_split_two_lines(ln, lv);
    assert(seq![ln, lv].drop_last() =~= seq![ln]);
    assert(seq![ln].drop_last() =~= Seq::<Seq<char>>::empty());
    assert(seq![ln].last() == ln);
    lemma_no_cr(event_prefix(), n);
    lemma_no_cr(data_prefix(), v);
    lemma_line_field_of(event_prefix(), n);
    lemma_line_field_of(data_prefix(), v);
    lemma_trim_plain(n);
    lemma_trim_plain(v);
    let init: SpecFields = (None, Seq::empty());
    let first = apply_terminated_lines(init, seq![ln]);
    assert(apply_terminated_lines(init, Seq::<Seq<char>>::empty()) == init);
    assert(first == apply_field(init, line_field(ln)));
    assert(first == (Some(n), Seq::<Seq<char>>::empty()));
    let st = frame_fields(ln + seq!['\n'] + lv);
    assert(st == apply_field(first, line_field(lv)));
    assert(Seq::<Seq<char>>::empty().push(v) =~= seq![v]);
    assert(st == (Some(n), seq![v]));
}

/// A carriage return that ends a line is not part of its value: a frame of
/// one data line whose value is followed by `'\r'` carries that value.
pub proof fn lemma_data_line_cr_dropped(v: Seq<char>)
    requires
        plain_value(v),
    ensures
        frame_event(data_prefix() + v + seq!['\r']) == Some((None::<Seq<char>>, v)),
{
    let line = data_prefix() + v;
    let raw = line + seq!['\r'];
    lemma_one_line_field(data_prefix(), v);
    assert(one_line(raw)) by {
        assert forall|i: int| 0 <= i < raw.len() implies raw[i] != '\n' by {
            if i < line.len() {
                assert(raw[i] == line[i]);
            }
        }
    }
    lemma_split_one_line(raw);
    assert(seq![raw].drop_last() =~= Seq::<Seq<char>>::empty());
    assert(strip_cr(raw) =~= line);
    lemma_line_field_of(data_prefix(), v);
    lemma_trim_plain(v);
    assert(Seq::<Seq<char>>::empty().push(v) =~= seq![v]);
}

/// A frame without a data line holds no event, even where it names one.
pub proof fn lemma_name_alone_is_no_event(n: Seq<char>)
    requires
        plain_value(n),
    ensures
        frame_event(event_prefix() + n) is None,
{
    let raw = event_prefix() + n;
    lemma_one_line_field(event_prefix(), n);
    lemma_split_one_line(raw);
    assert(seq![raw].drop_last() =~= Seq::<Seq<char>>::empty());
    lemma_no_cr(event_prefix(), n);
    lemma_line_field_of(event_prefix(), n);
}

/// Of two `event:` lines the later one names the event.
pub proof fn lemma_later_name_wins(n1: Seq<char>, n2: Seq<char>, v: Seq<char>)
    requires
        plain_value(n1),
        plain_value(n2),
        plain_value(v),
    ensures
        frame_event(
            event_prefix() + n1 + seq!['\n'] + (event_prefix() + n2) + seq!['\n'] + (data_prefix()
                + v),
        ) == Some((Some(n2), v)),
{
    let l1 = event_prefix() + n1;
    let l2 = event_prefix() + n2;
    let l3 = data_prefix() + v;
    lemma_one_line_field(event_prefix(), n1);
    lemma_one_line_field(event_prefix(), n2);
    lemma_one_line_field(data_prefix(), v);
    lemma_split_two_lines(l1, l2);
    lemma_split_append_line(l1 + seq!['\n'] + l2, l3);
    let parts = seq![l1, l2, l3];
    assert(seq![l1, l2].push(l3) =~= parts);
    assert(parts.drop_last() =~= seq![l1, l2]);
    assert(seq![l1, l2].drop_last() =~= seq![l1]);
    assert(seq![l1].drop_last() =~= Seq::<Seq<char>>::empty());
    lemma_no_cr(event_prefix(), n1);
    lemma_no_cr(event_prefix(), n2);
    lemma_no_cr(data_prefix(), v);
    lemma_line_field_of(event_prefix(), n1);
    lemma_line_field_of(event_prefix(), n2);
    lemma_line_field_of(data_prefix(), v);
    lemma_trim_plain(n1);
    lemma_trim_plain(n2);
    lemma_trim_plain(v);
    let init: SpecFields = (None, Seq::empty());
    assert(apply_terminated_lines(init, Seq::<Seq<char>>::empty()) == init);
    let f1 = apply_terminated_lines(init, seq![l1]);
    assert(f1 == apply_field(init, line_field(l1)));
    assert(f1 == (Some(n1), Seq::<Seq<char>>::empty()));
    let f2 = apply_terminated_lines(init, seq![l1, l2]);
    assert(f2 == apply_field(f1, line_field(l2)));
    assert(f2 == (Some(n2), Seq::<Seq<char>>::empty()));
    let st = frame_fields(l1 + seq!['\n'] + l2 + seq!['\n'] + l3);
    assert(st == apply_field(f2, line_field(l3)));
    assert(Seq::<Seq<char>>::empty().push(v) =~= seq![v]);
    assert(st == (Some(n2), seq![v]));
}

/// A comment line (one that starts with `:`) adds nothing to a frame.
pub proof fn lemma_comment_ignored(c: Seq<char>, v: Seq<char>)
    requires
        one_line(c),
        plain_value(v),
    ensures
        frame_event(seq![':'] + c + seq!['\n'] + (data_prefix() + v)) == Some(
            (None::<Seq<char>>, v),
        ),
{
    let l1 = seq![':'] + c;
    let l2 = data_prefix() + v;
    assert(one_line(l1)) by {
        assert forall|i: int| 0 <= i < l1.len() implies l1[i] != '\n' by {
            if i >= 1 {
                assert(l1[i] == c[i - 1]);
            }
        }
    }
    lemma_one_line_field(data_prefix(), v);
    lemma_split_two_lines(l1, l2);
    assert(seq![l1, l2].drop_last() =~= seq![l1]);
    assert(seq![l1].drop_last() =~= Seq::<Seq<char>>::empty());
    let once = strip_cr(l1);
    assert(once.len() >= 1 && once[0] == ':') by {
        if l1.last() == '\r' {
            assert(l1.len() >= 2);
            assert(once[0] == l1[0]);
        }
    }
    let twice = strip_cr(once);
    assert(twice.len() >= 1 && twice[0] == ':') by {
        if once.last() == '\r' {
            assert(once.len() >= 2);
            assert(twice[0] == once[0]);
        }
    }
    assert(line_field(twice) is None);
    lemma_no_cr(data_prefix(), v);
    lemma_line_field_of(data_prefix(), v);
    lemma_trim_plain(v);
    let init: SpecFields = (None, Seq::empty());
    assert(apply_terminated_lines(init, Seq::<Seq<char>>::empty()) == init);
    let f1 = apply_terminated_lines(init, seq![l1]);
    assert(f1 == apply_field(init, line_field(twice)));
    assert(f1 == init);
    let st = frame_fields(l1 + seq!['\n'] + l2);
    assert(st == apply_field(f1, line_field(l2)));
    assert(Seq::<Seq<char>>::empty().push(v) =~= seq![v]);
    assert(st == (None::<Seq<char>>, seq![v]));
}

proof fn lemma_one_line_field(p: Seq<char>, v: Seq<char>)
    requires
        p == data_prefix() || p == event_prefix(),
        one_line(v),
    ensures
        one_line(p + v),
{
    assert forall|i: int| 0 <= i < (p + v).len() implies (p + v)[i] != '\n' by {
        if i >= p.len() {
            assert((p + v)[i] == v[i - p.len()]);
        }
    }
}

proof fn lemma_join_push(lines: Seq<Seq<char>>, x: Seq<char>)
    ensures
        join_lines(lines.push(x)) == if lines.len() == 0 {
            x
        } else {
            join_lines(lines) + seq!['\n'] + x
        },
{
    assert(lines.push(x).drop_last() =~= lines);
}

/// The fields of a frame as the decoder builds them.
struct FieldState {
    event: Option<String>,
    data: String,
    count: usize,
    lines: Ghost<Seq<Seq<char>>>,
}

impl FieldState {
    spec fn fields(&self) -> SpecFields {
        (opt_string_view(self.event), self.lines@)
    }

    spec fn wf(&self) -> bool {
        &&& self.data@ == join_lines(self.lines@)
        &&& self.count == self.lines@.len()
    }

    fn new() -> (st: Self)
        ensures
            st.wf(),
            st.fields() == (None::<Seq<char>>, Seq::<Seq<char>>::empty()),
    {
        FieldState { event: None, data: String::new(), count: 0, lines: Ghost(Seq::empty()) }
    }

    fn apply(&mut self, f: Option<(bool, String)>)
        requires
            old(self).wf(),
            old(self).count < usize::MAX,
        ensures
            final(self).wf(),
            final(self).fields() == apply_field(old(self).fields(), opt_field_view(f)),
            final(self).count == old(self).count + (if f matches Some((false, _)) {
                1int
            } else {
                0int
            }),
    {
        if let Some((is_event, v)) = f {
                if is_event {
                    self.event = Some(v);
                } else {
                    proof {
                        lemma_join_push(self.lines@, v@);
                    }
                    if self.count == 0 {
                        self.data = v;
                    } else {
                        let ghost before = self.data@;
                        push_char(&mut self.data, '\n');
                        self.data.append(v.as_str());
                        assert(self.data@ =~= before + seq!['\n'] + v@);
                    }
                    self.lines = Ghost(self.lines@.push(v@));
                    self.count = self.count + 1;
                }
        }
    }
}

/// The view of a line's contribution.
pub open spec fn opt_field_view(f: Option<(bool, String)>) -> Option<(bool, Seq<char>)> {
    match f {
        Some((b, s)) => Some((b, s@)),
        None => None,
    }
}

/// The end of `v[lo..hi]` once one `'\r'` at its end is dropped.
fn strip_cr_end(v: &Vec<char>, lo: usize, hi: usize) -> (e: usize)
    requires
        lo <= hi <= v.len(),
    ensures
        lo <= e <= hi,
        v@.subrange(lo as int, e as int) == strip_cr(v@.subrange(lo as int, hi as int)),
{
    if hi > lo && v[hi - 1] == '\r' {
        assert(v@.subrange(lo as int, hi as int).drop_last() =~= v@.subrange(
            lo as int,
            hi - 1,
        ));
        hi - 1
    } else {
        hi
    }
}

/// What the line `v[lo..hi]` contributes to its frame.
fn classify_line(v: &Vec<char>, lo: usize, hi: usize) -> (f: Option<(bool, String)>)
    requires
        lo <= hi <= v.len(),
    ensures
        opt_field_view(f) == line_field(v@.subrange(lo as int, hi as int)),
        f matches Some((false, _)) ==> hi - lo >= 5,
{
    let ghost line = v@.subrange(lo as int, hi as int);
    if lo == hi || v[lo] == ':' {
        return None;
    }
    let n = hi - lo;
    let is_event = n >= 6 && v[lo] == 'e' && v[lo + 1] == 'v' && v[lo + 2] == 'e' && v[lo + 3]
        == 'n' && v[lo + 4] == 't' && v[lo + 5] == ':';
    proof {
        if is_event {
            assert(line.take(6) =~= event_prefix());
        } else if n >= 6 {
            if line.take(6) == event_prefix() {
                assert(line.take(6)[0] == line[0]);
                assert(line.take(6)[1] == line[1]);
                assert(line.take(6)[2] == line[2]);
                assert(line.take(6)[3] == line[3]);
                assert(line.take(6)[4] == line[4]);
                assert(line.take(6)[5] == line[5]);
            }
        }
    }
    if is_event {
        let j = skip_white_space(v, lo + 6, hi);
        assert(line.skip(6) =~= v@.subrange(lo + 6, hi as int));
        return Some((true, string_from_chars(v, j, hi)));
    }
    let is_data = n >= 5 && v[lo] == 'd' && v[lo + 1] == 'a' && v[lo + 2] == 't' && v[lo + 3]
        == 'a' && v[lo + 4] == ':';
    proof {
        if is_data {
            assert(line.take(5) =~= data_prefix());
        } else if n >= 5 {
            if line.take(5) == data_prefix() {
                assert(line.take(5)[0] == line[0]);
                assert(line.take(5)[1] == line[1]);
                assert(line.take(5)[2] == line[2]);
                assert(line.take(5)[3] == line[3]);
                assert(line.take(5)[4] == line[4]);
            }
        }
    }
    if is_data {
        let j = skip_white_space(v, lo + 5, hi);
        assert(line.skip(5) =~= v@.subrange(lo + 5, hi as int));
        return Some((false, string_from_chars(v, j, hi)));
    }
    None
}

/// Parses the frame `v[lo..hi]`.
fn parse_frame(v: &Vec<char>, lo: usize, hi: usize) -> (r: Option<SseEvent>)
    requires
        lo <= hi <= v.len(),
    ensures
        opt_event_view(r) == frame_event(v@.subrange(lo as int, hi as int)),
{
    let ghost raw = v@.subrange(lo as int, hi as int);
    let mut st = FieldState::new();
    let mut ls = lo;
    let mut i = lo;
    proof {
        assert(raw.take(0) =~= Seq::<char>::empty());
        assert(v@.subrange(lo as int, lo as int) =~= Seq::<char>::empty());
    }
    while i < hi
        invariant
            lo <= ls <= i <= hi <= v.len(),
            raw == v@.subrange(lo as int, hi as int),
            st.wf(),
            st.count * 6 <= ls - lo,
            split_at_newlines(raw.take(i - lo)).len() >= 1,
            split_at_newlines(raw.take(i - lo)).last() == v@.subrange(ls as int, i as int),
            st.fields() == apply_terminated_lines(
                (None, Seq::empty()),
                split_at_newlines(raw.take(i - lo)).drop_last(),
            ),
        decreases hi - i,
    {
        let ghost t = raw.take(i - lo);
        proof {
            assert(raw.take(i - lo + 1) =~= t.push(v@[i as int]));
            lemma_split_push(t, v@[i as int]);
        }
        if v[i] == '\n' {
            let e1 = strip_cr_end(v, ls, i);
            let e2 = strip_cr_end(v, ls, e1);
            let f = classify_line(v, ls, e2);
            st.apply(f);
            proof {
                let p = split_at_newlines(t);
                assert(p.push(Seq::empty()).drop_last() =~= p);
                assert(v@.subrange(i + 1, i + 1) =~= Seq::<char>::empty());
            }
            ls = i + 1;
        } else {
            proof {
                assert(v@.subrange(ls as int, i + 1) =~= v@.subrange(ls as int, i as int).push(
                    v@[i as int],
                ));
            }
        }
        i = i + 1;
    }
    proof {
        assert(raw.take(hi - lo) =~= raw);
    }
    let e1 = strip_cr_end(v, ls, hi);
    let f = classify_line(v, ls, e1);
    st.apply(f);
    if st.count == 0 {
        None
    } else {
        Some(SseEvent { event: st.event, data: st.data })
    }
}

/// Parses one frame of a Server-Sent Events stream (the text between two
/// blank lines) into an event; a frame without a `data:` line is no event.
pub fn parse_event(raw: &str) -> (r: Option<SseEvent>)
    ensures
        opt_event_view(r) == frame_event(raw@),
{
    let v = chars_of(raw);
    assert(v@.subrange(0, v@.len() as int) =~= v@);
    parse_frame(&v, 0, v.len())
}

/// The first position at or after `i` where `s` holds a blank line
/// (`"\n\n"`).
pub open spec fn find_blank_from(s: Seq<char>, i: nat) -> Option<nat>
    decreases s.len() - i,
{
    if i + 1 >= s.len() {
        None
    } else if s[i as int] == '\n' && s[i + 1int] == '\n' {
        Some(i)
    } else {
        find_blank_from(s, i + 1)
    }
}

/// `e` followed by `evs`, where there is an `e`.
pub open spec fn prepend_event(e: Option<SpecSseEvent>, evs: Seq<SpecSseEvent>) -> Seq<SpecSseEvent> {
    match e {
        Some(e) => seq![e] + evs,
        None => evs,
    }
}

/// The events of the complete frames of `s`, in order, and the text after
/// the last blank line, which waits for more input.
pub open spec fn drain_frames(s: Seq<char>) -> (Seq<SpecSseEvent>, Seq<char>)
    decreases s.len(),
{
    match find_blank_from(s, 0) {
        Some(i) => if i + 2 <= s.len() {
            let rest = drain_frames(s.skip(i + 2int));
            (prepend_event(frame_event(s.take(i as int)), rest.0), rest.1)
        } else {
            (Seq::empty(), s)
        },
        None => (Seq::empty(), s),
    }
}

/// The event that the text left at the end of the stream holds: none where
/// that text is all white space.
pub open spec fn final_event(rest: Seq<char>) -> Option<SpecSseEvent> {
    if all_white_space(rest) {
        None
    } else {
        frame_event(rest)
    }
}

/// Every event that the text `received` yields, the event left at its end
/// included once the stream has `ended`.
pub open spec fn decoded_events(received: Seq<char>, ended: bool) -> Seq<SpecSseEvent> {
    let d = drain_frames(received);
    if ended && final_event(d.1) is Some {
        d.0.push(final_event(d.1)->0)
    } else {
        d.0
    }
}

/// The text that still waits to be framed.
pub open spec fn undecoded_text(received: Seq<char>, ended: bool) -> Seq<char> {
    let d = drain_frames(received);
    if ended && final_event(d.1) is Some {
        Seq::empty()
    } else {
        d.1
    }
}

/// The views of a queue of events.
pub open spec fn event_views(q: Seq<SseEvent>) -> Seq<SpecSseEvent> {
    q.map_values(|e: SseEvent| e@)
}

proof fn lemma_find_blank_bounds(s: Seq<char>, k: nat)
    ensures
        find_blank_from(s, k) matches Some(i) ==> k <= i && i + 1 < s.len() && s[i as int]
            == '\n' && s[i + 1int] == '\n',
    decreases s.len() - k,
{
    if k + 1 < s.len() && !(s[k as int] == '\n' && s[k + 1int] == '\n') {
        lemma_find_blank_bounds(s, k + 1);
    }
}

proof fn lemma_find_blank_concat(s1: Seq<char>, s2: Seq<char>, k: nat)
    requires
        find_blank_from(s1, k) is Some,
    ensures
        find_blank_from(s1 + s2, k) == find_blank_from(s1, k),
    decreases s1.len() - k,
{
    lemma_find_blank_bounds(s1, k);
    assert((s1 + s2)[k as int] == s1[k as int]);
    assert((s1 + s2)[k + 1int] == s1[k + 1int]);
    if !(s1[k as int] == '\n' && s1[k + 1int] == '\n') {
        lemma_find_blank_concat(s1, s2, k + 1);
    }
}

/// Framing does not depend on how the text was cut into chunks: framing
/// `s1` and then the rest of `s1` followed by `s2` yields what framing
/// `s1 + s2` at once yields.
pub proof fn lemma_drain_concat(s1: Seq<char>, s2: Seq<char>)
    ensures
        drain_frames(s1 + s2) == (
            drain_frames(s1).0 + drain_frames(drain_frames(s1).1 + s2).0,
            drain_frames(drain_frames(s1).1 + s2).1,
        ),
    decreases s1.len(),
{
    lemma_find_blank_bounds(s1, 0);
    match find_blank_from(s1, 0) {
        Some(i) => {
            lemma_find_blank_concat(s1, s2, 0);
            assert((s1 + s2).take(i as int) =~= s1.take(i as int));
            assert((s1 + s2).skip(i + 2int) =~= s1.skip(i + 2int) + s2);
            lemma_drain_concat(s1.skip(i + 2int), s2);
            let r1 = drain_frames(s1.skip(i + 2int));
            let r2 = drain_frames(r1.1 + s2);
            let e = frame_event(s1.take(i as int));
            match e {
                Some(ev) => {
                    assert(seq![ev] + (r1.0 + r2.0) =~= (seq![ev] + r1.0) + r2.0);
                },
                None => {},
            }
        },
        None => {
            assert(Seq::<SpecSseEvent>::empty() + drain_frames(s1 + s2).0 =~= drain_frames(
                s1 + s2,
            ).0);
        },
    }
}

/// The text that waits for more input holds no blank line: every complete
/// frame has been framed.
pub proof fn lemma_rest_has_no_blank_line(s: Seq<char>)
    ensures
        find_blank_from(drain_frames(s).1, 0) is None,
    decreases s.len(),
{
    lemma_find_blank_bounds(s, 0);
    if let Some(i) = find_blank_from(s, 0) {
        lemma_rest_has_no_blank_line(s.skip(i + 2int));
    }
}

/// The text of `frames`, each followed by a blank line.
pub open spec fn join_frames(frames: Seq<Seq<char>>) -> Seq<char>
    decreases frames.len(),
{
    if frames.len() == 0 {
        Seq::empty()
    } else {
        frames[0] + seq!['\n', '\n'] + join_frames(frames.drop_first())
    }
}

/// The events of `frames`, in order; a frame that holds no event adds none.
pub open spec fn frame_events(frames: Seq<Seq<char>>) -> Seq<SpecSseEvent>
    decreases frames.len(),
{
    if frames.len() == 0 {
        Seq::empty()
    } else {
        prepend_event(frame_event(frames[0]), frame_events(frames.drop_first()))
    }
}

/// `frame` ends where its text meets the first blank line: the first blank
/// line of `frame` followed by `"\n\n"` is the one that follows it.
pub open spec fn ends_at_first_blank_line(frame: Seq<char>) -> bool {
    find_blank_from(frame + seq!['\n', '\n'], 0) == Some(frame.len())
}

/// Framing cuts the text at each first blank line: where `s` is a list of
/// frames, each cut at the first blank line after it starts and followed by
/// that blank line, and then a rest that holds no blank line, framing `s`
/// yields the events of those frames in order and leaves that rest to wait
/// for more input.
pub proof fn lemma_drain_frames_cuts(frames: Seq<Seq<char>>, rest: Seq<char>)
    requires
        forall|i: int| 0 <= i < frames.len() ==> ends_at_first_blank_line(#[trigger] frames[i]),
        find_blank_from(rest, 0) is None,
    ensures
        drain_frames(join_frames(frames) + rest) == (frame_events(frames), rest),
    decreases frames.len(),
{
    if frames.len() == 0 {
        assert(join_frames(frames) + rest =~= rest);
    } else {
        let f = frames[0];
        let tail = frames.drop_first();
        let head = f + seq!['\n', '\n'];
        let after = join_frames(tail) + rest;
        let s = join_frames(frames) + rest;
        assert(ends_at_first_blank_line(frames[0]));
        assert(s =~= head + after);
        lemma_find_blank_concat(head, after, 0);
        assert(s.take(f.len() as int) =~= f);
        assert(s.skip(f.len() + 2int) =~= after);
        assert forall|i: int| 0 <= i < tail.len() implies ends_at_first_blank_line(
            #[trigger] tail[i],
        ) by {
            assert(tail[i] == frames[i + 1]);
        }
        lemma_drain_frames_cuts(tail, rest);
    }
}

/// Every text is such a list of frames and a rest: the frames whose events
/// framing yields, and the text that it leaves to wait for more input.
pub proof fn lemma_frames_of(s: Seq<char>) -> (frames: Seq<Seq<char>>)
    ensures
        s == join_frames(frames) + drain_frames(s).1,
        forall|i: int| 0 <= i < frames.len() ==> ends_at_first_blank_line(#[trigger] frames[i]),
        drain_frames(s).0 == frame_events(frames),
        find_blank_from(drain_frames(s).1, 0) is None,
    decreases s.len(),
{
    lemma_rest_has_no_blank_line(s);
    lemma_find_blank_bounds(s, 0);
    match find_blank_from(s, 0) {
        Some(i) => {
            let f = s.take(i as int);
            let t = s.skip(i + 2int);
            let fs = lemma_frames_of(t);
            let frames = seq![f] + fs;
            assert(frames.drop_first() =~= fs);
            assert(frames[0] == f);
            assert(s =~= f + seq!['\n', '\n'] + (join_frames(fs) + drain_frames(t).1));
            assert(find_blank_from(f + seq!['\n', '\n'], 0) == Some(f.len())) by {
                lemma_find_blank_prefix(s, f + seq!['\n', '\n'], 0);
            }
            assert forall|j: int| 0 <= j < frames.len() implies ends_at_first_blank_line(
                #[trigger] frames[j],
            ) by {
                if j > 0 {
                    assert(frames[j] == fs[j - 1]);
                }
            }
            frames
        },
        None => {
            let frames = Seq::<Seq<char>>::empty();
            assert(s =~= join_frames(frames) + s);
            frames
        },
    }
}

/// A prefix of `s` that reaches past the first blank line of `s` from `k`
/// finds that blank line too.
proof fn lemma_find_blank_prefix(s: Seq<char>, p: Seq<char>, k: nat)
    requires
        find_blank_from(s, k) matches Some(i) && i + 2 <= p.len(),
        p.len() <= s.len(),
        p =~= s.take(p.len() as int),
    ensures
        find_blank_from(p, k) == find_blank_from(s, k),
    decreases s.len() - k,
{
    lemma_find_blank_bounds(s, k);
    assert(p[k as int] == s[k as int]);
    assert(p[k + 1int] == s[k + 1int]);
    if !(s[k as int] == '\n' && s[k + 1int] == '\n') {
        lemma_find_blank_prefix(s, p, k + 1);
    }
}

/// The end of the byte stream adds at most one event, that of the text left
/// after the last blank line, and none where that text is all white space
/// or holds no data line: before the end the events are those of the
/// complete frames.
pub proof fn lemma_end_adds_rest(s: Seq<char>)
    ensures
        decoded_events(s, false) == drain_frames(s).0,
        all_white_space(drain_frames(s).1) ==> decoded_events(s, true) == decoded_events(s, false),
        frame_event(drain_frames(s).1) is None ==> decoded_events(s, true) == decoded_events(
            s,
            false,
        ),
        !all_white_space(drain_frames(s).1) ==> (frame_event(drain_frames(s).1) matches Some(e)
            ==> decoded_events(s, true) == decoded_events(s, false).push(e)),
{
}

/// What the consumer of a stream is to do next.
#[derive(Debug)]
pub enum SseAction {
    /// Hand this item to the consumer.
    Emit(Result<SseEvent, OpenAIError>),
    /// The stream is over.
    Finished,
    /// Poll the byte stream for more input.
    NeedInput,
}

/// The fields of a decoder: the text not yet framed, the events framed but
/// not yet handed out, and whether the byte stream has ended.
struct SseState {
    buffer: Vec<char>,
    pending: std::collections::VecDeque<SseEvent>,
    done: bool,
    received: Ghost<Seq<char>>,
    delivered: Ghost<Seq<SpecSseEvent>>,
}

impl SseState {
    /// The well-formedness of the state: the events handed out, followed by
    /// those waiting, are exactly the events of all the text received; the
    /// buffer holds exactly the text that waits to be framed.
    closed spec fn wf(self) -> bool {
        &&& self.delivered@ + event_views(self.pending@) == decoded_events(
            self.received@,
            self.done,
        )
        &&& self.buffer@ == undecoded_text(self.received@, self.done)
    }

    /// All the text decoded from the byte stream so far.
    closed spec fn received(self) -> Seq<char> {
        self.received@
    }

    /// The events handed out so far.
    closed spec fn delivered(self) -> Seq<SpecSseEvent> {
        self.delivered@
    }

    /// The events framed but not yet handed out.
    closed spec fn pending_events(self) -> Seq<SpecSseEvent> {
        event_views(self.pending@)
    }

    /// The byte stream has ended.
    closed spec fn is_done(self) -> bool {
        self.done
    }

    /// A fresh state, before any byte.
    fn new() -> (s: Self)
        ensures
            s.wf(),
            s.received() == Seq::<char>::empty(),
            s.delivered() == Seq::<SpecSseEvent>::empty(),
            s.pending_events() == Seq::<SpecSseEvent>::empty(),
            !s.is_done(),
    {
        let ghost empty: Seq<char> = Seq::empty();
        assert(drain_frames(empty) == (Seq::<SpecSseEvent>::empty(), empty));
        let s = SseState {
            buffer: Vec::new(),
            pending: std::collections::VecDeque::new(),
            done: false,
            received: Ghost(empty),
            delivered: Ghost(Seq::empty()),
        };
        assert(event_views(s.pending@) =~= Seq::<SpecSseEvent>::empty());
        s
    }

    /// Tests whether the byte stream has ended.
    fn is_finished(&self) -> (r: bool)
        ensures
            r == self.is_done(),
    {
        self.done
    }

    /// Moves the complete frames of the buffer to the queue of events.
    fn drain_events(&mut self)
        ensures
            event_views(final(self).pending@) == event_views(old(self).pending@) + drain_frames(
                old(self).buffer@,
            ).0,
            final(self).buffer@ == drain_frames(old(self).buffer@).1,
            final(self).done == old(self).done,
            final(self).received == old(self).received,
            final(self).delivered == old(self).delivered,
    {
        let ghost s0 = self.buffer@;
        let ghost p0 = event_views(self.pending@);
        let n = self.buffer.len();
        let mut fs: usize = 0;
        let mut i: usize = 0;
        let ghost mut produced: Seq<SpecSseEvent> = Seq::empty();
        assert(s0.skip(0) =~= s0);
        while i < n && i + 1 < n
            invariant
                fs <= i <= n,
                n == self.buffer@.len(),
                self.buffer@ == s0,
                drain_frames(s0) == (
                    produced + drain_frames(s0.skip(fs as int)).0,
                    drain_frames(s0.skip(fs as int)).1,
                ),
                find_blank_from(s0.skip(fs as int), 0) == find_blank_from(
                    s0.skip(fs as int),
                    (i - fs) as nat,
                ),
                event_views(self.pending@) == p0 + produced,
                self.done == old(self).done,
                self.received == old(self).received,
                self.delivered == old(self).delivered,
            decreases n - i,
        {
            let ghost t = s0.skip(fs as int);
            if self.buffer[i] == '\n' && self.buffer[i + 1] == '\n' {
                assert(find_blank_from(t, (i - fs) as nat) == Some((i - fs) as nat));
                let ev = parse_frame(&self.buffer, fs, i);
                proof {
                    assert(t.take(i - fs) =~= s0.subrange(fs as int, i as int));
                    assert(t.skip(i - fs + 2) =~= s0.skip(i + 2));
                }
                let ghost old_pending = self.pending@;
                match ev {
                    Some(e) => {
                        self.pending.push_back(e);
                        proof {
                            assert(event_views(self.pending@) =~= event_views(old_pending).push(
                                e@,
                            ));
                            assert((produced + seq![e@]) + drain_frames(s0.skip(i + 2)).0
                                =~= produced + (seq![e@] + drain_frames(s0.skip(i + 2)).0));
                            produced = produced.push(e@);
                        }
                    },
                    None => {},
                }
                fs = i + 2;
                i = i + 2;
            } else {
                i = i + 1;
            }
        }
        let rest = self.buffer.split_off(fs);
        self.buffer = rest;
    }

    /// Hands out the first waiting event, if there is one; otherwise tells
    /// whether the stream is over or more input is needed. This is what a
    /// poll does before it polls the byte stream.
    fn resume(&mut self) -> (a: SseAction)
        requires
            old(self).wf(),
        ensures
            final(self).wf(),
            final(self).received() == old(self).received(),
            final(self).is_done() == old(self).is_done(),
            old(self).pending_events().len() > 0 ==> {
                &&& a matches SseAction::Emit(Ok(e)) && e@ == old(self).pending_events()[0]
                    && final(self).delivered() == old(self).delivered().push(e@)
                &&& final(self).pending_events() == old(self).pending_events().drop_first()
            },
            old(self).pending_events().len() == 0 ==> {
                &&& old(self).is_done() ==> a is Finished
                &&& !old(self).is_done() ==> a is NeedInput
                &&& final(self).pending_events() == old(self).pending_events()
                &&& final(self).delivered() == old(self).delivered()
            },
            a is Finished ==> final(self).delivered() == decoded_events(final(self).received(), true),
    {
        proof {
            if self.pending@.len() == 0 {
                assert(self.delivered@ + event_views(self.pending@) =~= self.delivered@);
            }
        }
        self.take_pending(if self.done {
            SseAction::Finished
        } else {
            SseAction::NeedInput
        })
    }

    /// Hands out the first waiting event, or `otherwise` where none waits.
    fn take_pending(&mut self, otherwise: SseAction) -> (a: SseAction)
        requires
            old(self).wf(),
        ensures
            final(self).wf(),
            final(self).received == old(self).received,
            final(self).done == old(self).done,
            final(self).buffer == old(self).buffer,
            old(self).pending_events().len() > 0 ==> {
                &&& a matches SseAction::Emit(Ok(e)) && e@ == old(self).pending_events()[0]
                    && final(self).delivered() == old(self).delivered().push(e@)
                &&& final(self).pending_events() == old(self).pending_events().drop_first()
            },
            old(self).pending_events().len() == 0 ==> {
                &&& a == otherwise
                &&& final(self).pending_events() == old(self).pending_events()
                &&& final(self).delivered() == old(self).delivered()
            },
    {
        let ghost p0 = self.pending@;
        match self.pending.pop_front() {
            Some(e) => {
                proof {
                    assert(event_views(p0) =~= seq![e@] + event_views(self.pending@));
                    assert(event_views(self.pending@) =~= event_views(p0).drop_first());
                    assert(self.delivered@.push(e@) + event_views(self.pending@) =~= self.delivered@
                        + event_views(p0));
                    self.delivered = Ghost(self.delivered@.push(e@));
                }
                SseAction::Emit(Ok(e))
            },
            None => {
                assert(event_views(p0) =~= Seq::<SpecSseEvent>::empty());
                otherwise
            },
        }
    }

    /// Takes a chunk of bytes from the byte stream: a chunk that is not
    /// well-formed UTF-8 is an error and changes nothing; otherwise its text
    /// is framed, and the first waiting event, if any, is handed out.
    fn feed_chunk(&mut self, chunk: &[u8]) -> (a: SseAction)
        requires
            old(self).wf(),
            !old(self).is_done(),
        ensures
            final(self).wf(),
            !final(self).is_done(),
            !valid_utf8(chunk@) ==> {
                &&& a matches SseAction::Emit(Err(OpenAIError::Stream(_)))
                &&& *final(self) == *old(self)
            },
            valid_utf8(chunk@) ==> {
                let t = decode_utf8(chunk@);
                let queue = old(self).pending_events() + drain_frames(
                    drain_frames(old(self).received()).1 + t,
                ).0;
                &&& final(self).received() == old(self).received() + t
                &&& queue.len() > 0 ==> {
                    &&& a matches SseAction::Emit(Ok(e)) && e@ == queue[0]
                        && final(self).delivered() == old(self).delivered().push(e@)
                    &&& final(self).pending_events() == queue.drop_first()
                }
                &&& queue.len() == 0 ==> {
                    &&& a is NeedInput
                    &&& final(self).pending_events() == queue
                    &&& final(self).delivered() == old(self).delivered()
                }
            },
    {
        let text = match str_from_utf8(chunk) {
            Ok(t) => t,
            Err(e) => {
                return SseAction::Emit(Err(OpenAIError::Stream(utf8_error_message(&e))));
            },
        };
        let ghost r0 = self.received@;
        let ghost p0 = event_views(self.pending@);
        extend_chars(&mut self.buffer, text);
        let ghost b1 = self.buffer@;
        self.drain_events();
        proof {
            lemma_drain_concat(r0, text@);
            self.received = Ghost(r0 + text@);
            assert(self.delivered@ + (p0 + drain_frames(b1).0) =~= (self.delivered@ + p0)
                + drain_frames(b1).0);
        }
        self.take_pending(SseAction::NeedInput)
    }

    /// Takes the end of the byte stream: the text left after the last blank
    /// line, unless it is all white space, is framed as one more event; the
    /// first waiting event, if any, is handed out, and otherwise the stream is
    /// over.
    fn feed_end(&mut self) -> (a: SseAction)
        requires
            old(self).wf(),
            !old(self).is_done(),
        ensures
            final(self).wf(),
            final(self).is_done(),
            final(self).received() == old(self).received(),
            ({
                let last = match final_event(drain_frames(old(self).received()).1) {
                    Some(e) => seq![e],
                    None => Seq::empty(),
                };
                let queue = old(self).pending_events() + last;
                &&& queue.len() > 0 ==> {
                    &&& a matches SseAction::Emit(Ok(e)) && e@ == queue[0]
                        && final(self).delivered() == old(self).delivered().push(e@)
                    &&& final(self).pending_events() == queue.drop_first()
                }
                &&& queue.len() == 0 ==> {
                    &&& a is Finished
                    &&& final(self).pending_events() == queue
                    &&& final(self).delivered() == old(self).delivered()
                }
            }),
            a is Finished ==> final(self).delivered() == decoded_events(final(self).received(), true),
    {
        let ghost r0 = self.received@;
        let ghost p0 = event_views(self.pending@);
        self.done = true;
        let n = self.buffer.len();
        assert(self.buffer@.subrange(0, n as int) =~= self.buffer@);
        if has_non_white_space(&self.buffer, 0, n) {
            match parse_frame(&self.buffer, 0, n) {
                Some(e) => {
                    self.buffer = Vec::new();
                    self.pending.push_back(e);
                    proof {
                        assert(event_views(self.pending@) =~= p0.push(e@));
                        assert(self.delivered@ + p0.push(e@) =~= (self.delivered@ + p0).push(e@));
                    }
                },
                None => {},
            }
        }
        proof {
            let last = match final_event(drain_frames(r0).1) {
                Some(e) => seq![e],
                None => Seq::<SpecSseEvent>::empty(),
            };
            assert(event_views(self.pending@) =~= p0 + last);
            if self.pending@.len() == 0 {
                assert(self.delivered@ + event_views(self.pending@) =~= self.delivered@);
            }
        }
        self.take_pending(SseAction::Finished)
    }
}

/// The decoding state of a Server-Sent Events stream: the text not yet
/// framed, the events framed but not yet handed out, and whether the byte
/// stream has ended. Every state is well-formed (`wf`), which is the law of
/// the decoder.
///
/// The decisions of a stream's `poll_next` are its methods; the caller polls
/// the byte stream and hands each outcome to the state.
pub struct SseStream {
    state: SseState,
}

impl SseStream {
    /// The well-formedness of the state, which every state has: the events
    /// handed out, followed by those waiting, are exactly the events of all
    /// the text received, and the buffer holds exactly the text that waits
    /// to be framed.
    #[verifier::type_invariant]
    pub closed spec fn wf(self) -> bool {
        self.state.wf()
    }

    /// All the text decoded from the byte stream so far.
    pub closed spec fn received(self) -> Seq<char> {
        self.state.received()
    }

    /// The events handed out so far.
    pub closed spec fn delivered(self) -> Seq<SpecSseEvent> {
        self.state.delivered()
    }

    /// The events framed but not yet handed out.
    pub closed spec fn pending_events(self) -> Seq<SpecSseEvent> {
        self.state.pending_events()
    }

    /// The byte stream has ended.
    pub closed spec fn is_done(self) -> bool {
        self.state.is_done()
    }

    /// The law of the decoder: in every well-formed state, the events handed
    /// out, followed by those waiting, are exactly the events that the text
    /// received so far holds (with the event left at its end once the byte
    /// stream has ended), whatever chunks that text came in.
    pub proof fn lemma_events_of_received(s: SseStream)
        requires
            s.wf(),
        ensures
            s.delivered() + s.pending_events() == decoded_events(s.received(), s.is_done()),
    {
    }

    /// A fresh state, before any byte.
    pub fn new() -> (s: Self)
        ensures
            s.wf(),
            s.received() == Seq::<char>::empty(),
            s.delivered() == Seq::<SpecSseEvent>::empty(),
            s.pending_events() == Seq::<SpecSseEvent>::empty(),
            !s.is_done(),
    {
        SseStream { state: SseState::new() }
    }

    /// Tests whether the byte stream has ended.
    pub fn is_finished(&self) -> (r: bool)
        ensures
            r == self.is_done(),
    {
        self.state.is_finished()
    }

    /// Hands out the first waiting event, if there is one; otherwise tells
    /// whether the stream is over or more input is needed. This is what a
    /// poll does before it polls the byte stream.
    pub fn resume(&mut self) -> (a: SseAction)
        ensures
            final(self).wf(),
            final(self).received() == old(self).received(),
            final(self).is_done() == old(self).is_done(),
            old(self).pending_events().len() > 0 ==> {
                &&& a matches SseAction::Emit(Ok(e)) && e@ == old(self).pending_events()[0]
                    && final(self).delivered() == old(self).delivered().push(e@)
                &&& final(self).pending_events() == old(self).pending_events().drop_first()
            },
            old(self).pending_events().len() == 0 ==> {
                &&& old(self).is_done() ==> a is Finished
                &&& !old(self).is_done() ==> a is NeedInput
                &&& final(self).pending_events() == old(self).pending_events()
                &&& final(self).delivered() == old(self).delivered()
            },
            a is Finished ==> final(self).delivered() == decoded_events(final(self).received(), true),
    {
        proof {
            use_type_invariant(&*self);
        }
        let mut state = SseState::new();
        std::mem::swap(&mut state, &mut self.state);
        let a = state.resume();
        self.state = state;
        a
    }

    /// Takes a chunk of bytes from the byte stream: a chunk that is not
    /// well-formed UTF-8 is an error and changes nothing; otherwise its text
    /// is framed, and the first waiting event, if any, is handed out.
    pub fn feed_chunk(&mut self, chunk: &[u8]) -> (a: SseAction)
        requires
            !old(self).is_done(),
        ensures
            final(self).wf(),
            !final(self).is_done(),
            !valid_utf8(chunk@) ==> {
                &&& a matches SseAction::Emit(Err(OpenAIError::Stream(_)))
                &&& *final(self) == *old(self)
            },
            valid_utf8(chunk@) ==> {
                let t = decode_utf8(chunk@);
                let queue = old(self).pending_events() + drain_frames(
                    drain_frames(old(self).received()).1 + t,
                ).0;
                &&& final(self).received() == old(self).received() + t
                &&& queue.len() > 0 ==> {
                    &&& a matches SseAction::Emit(Ok(e)) && e@ == queue[0]
                        && final(self).delivered() == old(self).delivered().push(e@)
                    &&& final(self).pending_events() == queue.drop_first()
                }
                &&& queue.len() == 0 ==> {
                    &&& a is NeedInput
                    &&& final(self).pending_events() == queue
                    &&& final(self).delivered() == old(self).delivered()
                }
            },
    {
        proof {
            use_type_invariant(&*self);
        }
        let mut state = SseState::new();
        std::mem::swap(&mut state, &mut self.state);
        let a = state.feed_chunk(chunk);
        self.state = state;
        a
    }

    /// Takes the end of the byte stream: the text left after the last blank
    /// line, unless it is all white space, is framed as one more event; the
    /// first waiting event, if any, is handed out, and otherwise the stream is
    /// over.
    pub fn feed_end(&mut self) -> (a: SseAction)
        requires
            !old(self).is_done(),
        ensures
            final(self).wf(),
            final(self).is_done(),
            final(self).received() == old(self).received(),
            ({
                let last = match final_event(drain_frames(old(self).received()).1) {
                    Some(e) => seq![e],
                    None => Seq::empty(),
                };
                let queue = old(self).pending_events() + last;
                &&& queue.len() > 0 ==> {
                    &&& a matches SseAction::Emit(Ok(e)) && e@ == queue[0]
                        && final(self).delivered() == old(self).delivered().push(e@)
                    &&& final(self).pending_events() == queue.drop_first()
                }
                &&& queue.len() == 0 ==> {
                    &&& a is Finished
                    &&& final(self).pending_events() == queue
                    &&& final(self).delivered() == old(self).delivered()
                }
            }),
            a is Finished ==> final(self).delivered() == decoded_events(final(self).received(), true),
    {
        proof {
            use_type_invariant(&*self);
        }
        let mut state = SseState::new();
        std::mem::swap(&mut state, &mut self.state);
        let a = state.feed_end();
        self.state = state;
        a
    }

    /// Takes a failure of the byte stream, which is handed out as an HTTP
    /// error; the state does not change.
    pub fn feed_error(&mut self, error: reqwest::Error) -> (a: SseAction)
        ensures
            *final(self) == *old(self),
            a matches SseAction::Emit(Err(OpenAIError::Http(e))) && e == error,
    {
        proof {
            use_type_invariant(&*self);
        }
        SseAction::Emit(Err(OpenAIError::Http(error)))
    }
}

impl SseStream {
    /// Hands out every event that waits, as a consumer that polls again
    /// after each event does, collecting them in `out`.
    fn drain_pending(&mut self, out: &mut Vec<SseEvent>)
        requires
            event_views(old(out)@) == old(self).delivered(),
        ensures
            final(self).wf(),
            final(self).received() == old(self).received(),
            final(self).is_done() == old(self).is_done(),
            final(self).pending_events().len() == 0,
            final(self).delivered() == old(self).delivered() + old(self).pending_events(),
            event_views(final(out)@) == final(self).delivered(),
    {
        proof {
            use_type_invariant(&*self);
        }
        let ghost d0 = self.delivered();
        let ghost p0 = self.pending_events();
        loop
            invariant
                self.wf(),
                self.received() == old(self).received(),
                self.is_done() == old(self).is_done(),
                self.delivered() + self.pending_events() == d0 + p0,
                event_views(out@) == self.delivered(),
            ensures
                self.wf(),
                self.received() == old(self).received(),
                self.is_done() == old(self).is_done(),
                self.pending_events().len() == 0,
                self.delivered() + self.pending_events() == d0 + p0,
                event_views(out@) == self.delivered(),
            decreases self.pending_events().len(),
        {
            let ghost before = self.pending_events();
            let ghost out0 = out@;
            match self.resume() {
                SseAction::Emit(Ok(e)) => {
                    out.push(e);
                    proof {
                        assert(event_views(out@) =~= event_views(out0).push(e@));
                        assert(self.delivered() + self.pending_events() =~= self.delivered()
                            .drop_last() + before);
                    }
                },
                _ => {
                    break ;
                },
            }
        }
        assert(self.delivered() + self.pending_events() =~= self.delivered());
    }

    /// Decodes a whole stream whose chunks are held in memory, as a consumer
    /// that polls it to the end does: each chunk is taken in turn, every
    /// event is handed out as soon as it is framed, and the end is taken
    /// after the last chunk. Where every chunk is valid UTF-8 the result is
    /// the events of the text that the chunks decode to, whatever the cuts
    /// between them; otherwise it is the stream error of the first chunk
    /// that is not.
    pub fn decode_all(chunks: &Vec<Vec<u8>>) -> (r: core::result::Result<Vec<SseEvent>, OpenAIError>)
        ensures
            all_valid_utf8(chunks@) ==> (r matches Ok(events) && event_views(events@)
                == decoded_events(chunks_text(chunks@), true)),
            !all_valid_utf8(chunks@) ==> r matches Err(OpenAIError::Stream(_)),
    {
        let mut s = SseStream::new();
        let mut out: Vec<SseEvent> = Vec::new();
        let mut i: usize = 0;
        assert(event_views(out@) =~= s.delivered());
        while i < chunks.len()
            invariant
                i <= chunks@.len(),
                s.wf(),
                !s.is_done(),
                s.received() == chunks_text(chunks@.take(i as int)),
                all_valid_utf8(chunks@.take(i as int)),
                event_views(out@) == s.delivered(),
            decreases chunks@.len() - i,
        {
            let ghost out0 = out@;
            let ghost r0 = s.received();
            let chunk = chunks[i].as_slice();
            let a = s.feed_chunk(chunk);
            proof {
                assert(chunks@.take(i + 1).drop_last() =~= chunks@.take(i as int));
                assert(chunks@.take(i + 1).last() == chunks@[i as int]);
            }
            match a {
                SseAction::Emit(Ok(e)) => {
                    out.push(e);
                    assert(event_views(out@) =~= event_views(out0).push(e@));
                },
                SseAction::Emit(Err(err)) => {
                    proof {
                        assert(!valid_utf8(chunks@[i as int]@));
                        assert(!all_valid_utf8(chunks@));
                    }
                    return Err(err);
                },
                _ => {},
            }
            s.drain_pending(&mut out);
            proof {
                assert forall|j: int| 0 <= j < i + 1 implies valid_utf8(
                    #[trigger] chunks@.take(i + 1)[j]@,
                ) by {
                    if j < i {
                        assert(chunks@.take(i + 1)[j] == chunks@.take(i as int)[j]);
                    }
                }
            }
            i = i + 1;
        }
        proof {
            assert(chunks@.take(i as int) =~= chunks@);
        }
        let ghost out1 = out@;
        let a = s.feed_end();
        match a {
            SseAction::Emit(Ok(e)) => {
                out.push(e);
                assert(event_views(out@) =~= event_views(out1).push(e@));
            },
            _ => {},
        }
        s.drain_pending(&mut out);
        proof {
            assert(s.delivered() + s.pending_events() =~= s.delivered());
            SseStream::lemma_events_of_received(s);
        }
        Ok(out)
    }
}

/// The text that `chunks` decode to, one after the other.
pub open spec fn chunks_text(chunks: Seq<Vec<u8>>) -> Seq<char>
    decreases chunks.len(),
{
    if chunks.len() == 0 {
        Seq::empty()
    } else {
        chunks_text(chunks.drop_last()) + decode_utf8(chunks.last()@)
    }
}

/// Every chunk of `chunks` is valid UTF-8.
pub open spec fn all_valid_utf8(chunks: Seq<Vec<u8>>) -> bool {
    forall|i: int| 0 <= i < chunks.len() ==> valid_utf8(#[trigger] chunks[i]@)
}

impl SseEvent {
    /// The payload of a JSON event: the data, unless it is the `[DONE]`
    /// marker that ends a stream.
    pub fn json_payload(&self) -> (r: Option<&str>)
        ensures
            self.data@ == done_marker() ==> r is None,
            self.data@ != done_marker() ==> (r matches Some(s) && s@ == self.data@),
    {
        let is_done = is_done_marker(self.data.as_str());
        if is_done {
            None
        } else {
            Some(self.data.as_str())
        }
    }
}

/// Tests whether `text` is the `[DONE]` marker that ends a stream of JSON
/// events (as an event's data, or as the JSON string that a chunk holds).
pub fn is_done_marker(text: &str) -> (r: bool)
    ensures
        r == (text@ == done_marker()),
{
    let v = chars_of(text);
    let is_done = v.len() == 6 && v[0] == '[' && v[1] == 'D' && v[2] == 'O' && v[3] == 'N'
        && v[4] == 'E' && v[5] == ']';
    proof {
        if is_done {
            assert(v@ =~= done_marker());
        } else if v@ == done_marker() {
            assert(v@[0] == '[');
        }
    }
    is_done
}

/// The data that marks the end of a stream of JSON events.
pub open spec fn done_marker() -> Seq<char> {
    seq!['[', 'D', 'O', 'N', 'E', ']']
}

} // verus!
