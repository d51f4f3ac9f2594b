//! The environment file: a flat text of `KEY=VALUE` lines, the one durable
//! store of the current token pair.
//!
//! The file is read as a sequence of lines, each ended by a line feed or by
//! the end of the text. Writing it back ends every line with a line feed.
//! Setting a key replaces the first line that begins with `KEY=`, drops any
//! later such line, and leaves every other line where it was; without such a
//! line, the new one is added at the end.
use vstd::prelude::*;
use crate::text::{chars_of, has_prefix, slice_of, starts_with, string_of};

verus! {

/// No character of `s` is a line feed.
pub open spec fn no_line_break(s: Seq<char>) -> bool {
    forall|i: int| 0 <= i < s.len() ==> s[i] != '\n'
}

/// Every line of `ls` is free of line feeds.
pub open spec fn plain_lines(ls: Seq<Seq<char>>) -> bool {
    forall|i: int| 0 <= i < ls.len() ==> no_line_break(#[trigger] ls[i])
}

/// The lines of `text` that a line feed has ended, and the characters after
/// the last line feed.
pub open spec fn scan(text: Seq<char>) -> (Seq<Seq<char>>, Seq<char>)
    decreases text.len(),
{
    if text.len() == 0 {
        (Seq::empty(), Seq::empty())
    } else {
        let (done, rest) = scan(text.drop_last());
        if text.last() == '\n' {
            (done.push(rest), Seq::empty())
        } else {
            (done, rest.push(text.last()))
        }
    }
}

/// The lines of `text`. A last line needs no line feed; a text that ends with
/// a line feed has no empty line after it.
pub open spec fn lines(text: Seq<char>) -> Seq<Seq<char>> {
    let (done, rest) = scan(text);
    if rest.len() == 0 {
        done
    } else {
        done.push(rest)
    }
}

/// The text of `ls`: each line followed by a line feed.
pub open spec fn render(ls: Seq<Seq<char>>) -> Seq<char>
    decreases ls.len(),
{
    if ls.len() == 0 {
        Seq::empty()
    } else {
        render(ls.drop_last()) + ls.last().push('\n')
    }
}

/// The line `KEY=VALUE`.
pub open spec fn entry_line(key: Seq<char>, value: Seq<char>) -> Seq<char> {
    key.push('=') + value
}

/// `line` begins with `KEY=`.
pub open spec fn is_entry(line: Seq<char>, key: Seq<char>) -> bool {
    has_prefix(line, key.push('='))
}

/// `ls` without the lines that begin with `KEY=`.
pub open spec fn without_key(ls: Seq<Seq<char>>, key: Seq<char>) -> Seq<Seq<char>>
    decreases ls.len(),
{
    if ls.len() == 0 {
        ls
    } else if is_entry(ls.first(), key) {
        without_key(ls.drop_first(), key)
    } else {
        seq![ls.first()] + without_key(ls.drop_first(), key)
    }
}

/// How many lines of `ls` begin with `KEY=`.
pub open spec fn count_key(ls: Seq<Seq<char>>, key: Seq<char>) -> nat
    decreases ls.len(),
{
    if ls.len() == 0 {
        0
    } else if is_entry(ls.first(), key) {
        1 + count_key(ls.drop_first(), key)
    } else {
        count_key(ls.drop_first(), key)
    }
}

/// `ls` with `KEY=VALUE` in place of its first line that begins with `KEY=`
/// and without the later ones; at the end, where `ls` has no such line.
pub open spec fn set_key(ls: Seq<Seq<char>>, key: Seq<char>, value: Seq<char>) -> Seq<Seq<char>>
    decreases ls.len(),
{
    if ls.len() == 0 {
        seq![entry_line(key, value)]
    } else if is_entry(ls.first(), key) {
        seq![entry_line(key, value)] + without_key(ls.drop_first(), key)
    } else {
        seq![ls.first()] + set_key(ls.drop_first(), key, value)
    }
}

/// What follows `KEY=` in the first line of `ls` that begins with it.
pub open spec fn lookup(ls: Seq<Seq<char>>, key: Seq<char>) -> Option<Seq<char>>
    decreases ls.len(),
{
    if ls.len() == 0 {
        None
    } else if is_entry(ls.first(), key) {
        Some(ls.first().skip(key.len() + 1 as int))
    } else {
        lookup(ls.drop_first(), key)
    }
}

/// The content of the file after `KEY` is set to `VALUE` in `content`.
pub open spec fn updated(content: Seq<char>, key: Seq<char>, value: Seq<char>) -> Seq<char> {
    render(set_key(lines(content), key, value))
}

/// The lines of an environment file, in order.
pub struct EnvFile {
    lines: Vec<Vec<char>>,
}

impl View for EnvFile {
    type V = Seq<Seq<char>>;

    closed spec fn view(&self) -> Seq<Seq<char>> {
        Seq::new(self.lines@.len(), |i: int| self.lines@[i]@)
    }
}

impl EnvFile {
    /// No line holds a line feed: the file reads back as it was written.
    pub open spec fn wf(&self) -> bool {
        plain_lines(self@)
    }

    /// The file without any line, as where none exists on disk.
    pub fn new() -> (f: EnvFile)
        ensures
            f@ == Seq::<Seq<char>>::empty(),
            f.wf(),
    {
        let f = EnvFile { lines: Vec::new() };
        assert(f@ =~= Seq::<Seq<char>>::empty());
        f
    }

    /// Reads the file from `content`, what stands on disk, or from nothing
    /// where the file does not exist: such a file has no line.
    pub fn read(content: Option<&str>) -> (f: EnvFile)
        ensures
            f@ == match content {
                Some(text) => lines(text@),
                None => Seq::<Seq<char>>::empty(),
            },
            f.wf(),
    {
        match content {
            Some(text) => EnvFile::parse(text),
            None => EnvFile::new(),
        }
    }

    /// Reads the lines of `content`.
    pub fn parse(content: &str) -> (f: EnvFile)
        ensures
            f@ == lines(content@),
            f.wf(),
    {
        let text = chars_of(content);
        let mut f = EnvFile { lines: Vec::new() };
        let mut start: usize = 0;
        let mut i: usize = 0;
        assert(f@ =~= scan(text@.take(0)).0);
        assert(text@.subrange(0, 0) =~= scan(text@.take(0)).1);
        while i < text.len()
            invariant
                start <= i <= text.len(),
                f@ == scan(text@.take(i as int)).0,
                text@.subrange(start as int, i as int) == scan(text@.take(i as int)).1,
            decreases text.len() - i,
        {
            proof {
                assert(text@.take(i + 1).drop_last() == text@.take(i as int));
                assert(text@.take(i + 1).last() == text@[i as int]);
            }
            if text[i] == '\n' {
                let line = slice_of(&text, start, i);
                let ghost before = f@;
                f.lines.push(line);
                assert(f@ =~= before.push(line@));
                start = i + 1;
                assert(text@.subrange(start as int, i + 1) =~= Seq::<char>::empty());
            } else {
                assert(text@.subrange(start as int, i + 1) =~= text@.subrange(
                    start as int,
                    i as int,
                ).push(text@[i as int]));
            }
            i = i + 1;
        }
        assert(text@.take(text.len() as int) == text@);
        if start < text.len() {
            let line = slice_of(&text, start, text.len());
            let ghost before = f@;
            f.lines.push(line);
            assert(f@ =~= before.push(line@));
        }
        proof {
            lemma_lines_are_plain(content@);
        }
        f
    }

    /// The number of lines.
    pub fn len(&self) -> (n: usize)
        ensures
            n == self@.len(),
    {
        self.lines.len()
    }

    /// The line at `index`.
    pub fn line(&self, index: usize) -> (l: String)
        requires
            index < self@.len(),
        ensures
            l@ == self@[index as int],
    {
        string_of(&self.lines[index])
    }

    /// The value of `key`: what follows `KEY=` in the first line that begins
    /// with it.
    pub fn get(&self, key: &str) -> (value: Option<String>)
        ensures
            match value {
                Some(v) => lookup(self@, key@) == Some(v@),
                None => lookup(self@, key@) is None,
            },
    {
        let mut prefix = chars_of(key);
        prefix.push('=');
        let mut i: usize = 0;
        assert(self@.skip(0) =~= self@);
        while i < self.lines.len()
            invariant
                i <= self.lines.len(),
                prefix@ == key@.push('='),
                lookup(self@, key@) == lookup(self@.skip(i as int), key@),
            decreases self.lines.len() - i,
        {
            proof {
                assert(self@.skip(i as int).first() == self.lines@[i as int]@);
                assert(self@.skip(i as int).drop_first() == self@.skip(i + 1));
            }
            if starts_with(&self.lines[i], &prefix) {
                let line = &self.lines[i];
                let rest = slice_of(line, prefix.len(), line.len());
                assert(line@.skip(key@.len() + 1 as int) == line@.subrange(
                    prefix.len() as int,
                    line.len() as int,
                ));
                return Some(string_of(&rest));
            }
            i = i + 1;
        }
        None
    }

    /// Sets `key` to `value`: the first line that begins with `KEY=` becomes
    /// `KEY=VALUE` and later such lines leave; without one, `KEY=VALUE` is
    /// added as the last line. The other lines stay, in their order.
    pub fn update(&mut self, key: &str, value: &str)
        ensures
            final(self)@ == set_key(old(self)@, key@, value@),
            old(self).wf() && no_line_break(key@) && no_line_break(value@) ==> final(self).wf(),
    {
        let mut prefix = chars_of(key);
        prefix.push('=');
        let mut entry = chars_of(key);
        entry.push('=');
        let mut tail = chars_of(value);
        entry.append(&mut tail);
        assert(entry@ =~= entry_line(key@, value@));

        let ghost before = self@;
        let mut out = EnvFile { lines: Vec::new() };
        let mut placed = false;
        let mut i: usize = 0;
        assert(out@ =~= Seq::<Seq<char>>::empty());
        assert(before.skip(0) =~= before);
        while i < self.lines.len()
            invariant
                i <= self.lines.len(),
                self@ == before,
                prefix@ == key@.push('='),
                entry@ == entry_line(key@, value@),
                !placed ==> set_key(before, key@, value@) == out@ + set_key(
                    before.skip(i as int),
                    key@,
                    value@,
                ),
                placed ==> set_key(before, key@, value@) == out@ + without_key(
                    before.skip(i as int),
                    key@,
                ),
            decreases self.lines.len() - i,
        {
            proof {
                assert(before.skip(i as int).first() == self.lines@[i as int]@);
                assert(before.skip(i as int).drop_first() == before.skip(i + 1));
            }
            let ghost shown = out@;
            if starts_with(&self.lines[i], &prefix) {
                if !placed {
                    out.lines.push(entry.clone());
                    placed = true;
                    assert(out@ =~= shown.push(entry@));
                    assert(shown + (seq![entry@] + without_key(before.skip(i + 1), key@))
                        =~= shown.push(entry@) + without_key(before.skip(i + 1), key@));
                }
            } else {
                let line = self.lines[i].clone();
                out.lines.push(line);
                assert(out@ =~= shown.push(before[i as int]));
                if placed {
                    assert(shown + (seq![before[i as int]] + without_key(
                        before.skip(i + 1),
                        key@,
                    )) =~= shown.push(before[i as int]) + without_key(before.skip(i + 1), key@));
                } else {
                    assert(shown + (seq![before[i as int]] + set_key(
                        before.skip(i + 1),
                        key@,
                        value@,
                    )) =~= shown.push(before[i as int]) + set_key(
                        before.skip(i + 1),
                        key@,
                        value@,
                    ));
                }
            }
            i = i + 1;
        }
        let ghost shown = out@;
        if !placed {
            out.lines.push(entry);
            assert(out@ =~= shown.push(entry_line(key@, value@)));
            assert(shown + seq![entry_line(key@, value@)] =~= shown.push(
                entry_line(key@, value@),
            ));
        } else {
            assert(shown + Seq::<Seq<char>>::empty() =~= shown);
        }
        proof {
            lemma_set_key_plain(before, key@, value@);
        }
        *self = out;
    }

    /// The text of the file: each line followed by a line feed.
    pub fn render(&self) -> (text: String)
        ensures
            text@ == render(self@),
    {
        let mut out: Vec<char> = Vec::new();
        let mut i: usize = 0;
        assert(self@.take(0) =~= Seq::<Seq<char>>::empty());
        while i < self.lines.len()
            invariant
                i <= self.lines.len(),
                out@ == render(self@.take(i as int)),
            decreases self.lines.len() - i,
        {
            let line = &self.lines[i];
            let ghost shown = out@;
            let mut j: usize = 0;
            while j < line.len()
                invariant
                    j <= line.len(),
                    out@ == shown + line@.take(j as int),
                decreases line.len() - j,
            {
                out.push(line[j]);
                j = j + 1;
                assert(line@.take(j as int) == line@.take(j - 1).push(line@[j - 1]));
            }
            out.push('\n');
            proof {
                assert(line@.take(line.len() as int) == line@);
                assert(self@.take(i + 1).drop_last() == self@.take(i as int));
                assert(self@.take(i + 1).last() == line@);
                assert(out@ =~= shown + line@.push('\n'));
            }
            i = i + 1;
        }
        assert(self@.take(self.lines.len() as int) == self@);
        string_of(&out)
    }
}

/// The content of the environment file after `key` is set to `value` in
/// `content`; `content` is empty where the file does not exist yet.
pub fn update_env_file(content: &str, key: &str, value: &str) -> (out: String)
    ensures
        out@ == updated(content@, key@, value@),
{
    let mut file = EnvFile::parse(content);
    file.update(key, value);
    file.render()
}

/// The value that `content` gives to `key`, if it gives one.
pub fn env_value(content: &str, key: &str) -> (value: Option<String>)
    ensures
        match value {
            Some(v) => lookup(lines(content@), key@) == Some(v@),
            None => lookup(lines(content@), key@) is None,
        },
{
    EnvFile::parse(content).get(key)
}

/// The finished lines of a text and its rest hold no line feed, and the
/// text is its finished lines written out, then its rest.
pub proof fn lemma_scan(text: Seq<char>)
    ensures
        plain_lines(scan(text).0),
        no_line_break(scan(text).1),
        render(scan(text).0) + scan(text).1 == text,
    decreases text.len(),
{
    if text.len() == 0 {
        assert(render(scan(text).0) + scan(text).1 =~= text);
    } else {
        lemma_scan(text.drop_last());
        let (done, rest) = scan(text.drop_last());
        if text.last() == '\n' {
            assert(done.push(rest).drop_last() == done);
            assert(render(done.push(rest)) + Seq::<char>::empty() =~= (render(done) + rest).push(
                '\n',
            ));
            assert(text =~= text.drop_last().push(text.last()));
        } else {
            assert(render(done) + rest.push(text.last()) =~= (render(done) + rest).push(
                text.last(),
            ));
            assert(text =~= text.drop_last().push(text.last()));
        }
    }
}

/// No line of a text holds a line feed.
pub proof fn lemma_lines_are_plain(text: Seq<char>)
    ensures
        plain_lines(lines(text)),
{
    lemma_scan(text);
}

/// Writing the lines of a text out gives the text back, with a line feed
/// added where the text did not end with one.
pub proof fn lemma_render_lines(text: Seq<char>)
    ensures
        render(lines(text)) == if text.len() == 0 || text.last() == '\n' {
            text
        } else {
            text.push('\n')
        },
{
    lemma_scan(text);
    let (done, rest) = scan(text);
    if rest.len() == 0 {
        assert(render(done) + rest =~= render(done));
        if text.len() > 0 && text.last() != '\n' {
            assert(scan(text).1 == scan(text.drop_last()).1.push(text.last()));
        }
    } else {
        assert(done.push(rest).drop_last() == done);
        assert(render(done) + rest.push('\n') =~= (render(done) + rest).push('\n'));
        if text.last() == '\n' {
            assert(scan(text).1 == Seq::<char>::empty());
        }
    }
}

/// Reading `text` and then characters without a line feed adds them to the
/// rest.
proof fn lemma_scan_more(text: Seq<char>, more: Seq<char>)
    requires
        no_line_break(more),
    ensures
        scan(text + more) == (scan(text).0, scan(text).1 + more),
    decreases more.len(),
{
    if more.len() == 0 {
        assert(text + more =~= text);
        assert(scan(text).1 + more =~= scan(text).1);
    } else {
        lemma_scan_more(text, more.drop_last());
        assert((text + more).drop_last() =~= text + more.drop_last());
        assert((text + more).last() == more.last());
        assert(scan(text).1 + more =~= (scan(text).1 + more.drop_last()).push(more.last()));
    }
}

/// Lines without line feeds read back from their text as they were written.
pub proof fn lemma_lines_of_render(ls: Seq<Seq<char>>)
    requires
        plain_lines(ls),
    ensures
        scan(render(ls)) == (ls, Seq::<char>::empty()),
        lines(render(ls)) == ls,
    decreases ls.len(),
{
    if ls.len() == 0 {
    } else {
        let front = ls.drop_last();
        let last = ls.last();
        assert(plain_lines(front)) by {
            assert forall|i: int| 0 <= i < front.len() implies no_line_break(
                #[trigger] front[i],
            ) by {
                assert(front[i] == ls[i]);
            }
        }
        lemma_lines_of_render(front);
        lemma_scan_more(render(front), last);
        let text = render(ls);
        assert(text =~= (render(front) + last).push('\n'));
        assert(text.drop_last() =~= render(front) + last);
        assert(text.last() == '\n');
        assert(Seq::<char>::empty() + last =~= last);
        assert(front.push(last) =~= ls);
    }
}

/// Removing the lines of a key from lines that have none changes nothing.
pub proof fn lemma_without_key_twice(ls: Seq<Seq<char>>, key: Seq<char>)
    ensures
        without_key(without_key(ls, key), key) == without_key(ls, key),
        count_key(without_key(ls, key), key) == 0,
    decreases ls.len(),
{
    if ls.len() == 0 {
    } else {
        lemma_without_key_twice(ls.drop_first(), key);
        if !is_entry(ls.first(), key) {
            let rest = without_key(ls.drop_first(), key);
            let kept = seq![ls.first()] + rest;
            assert(kept.first() == ls.first());
            assert(kept.drop_first() =~= rest);
        }
    }
}

/// After a key is set, exactly one line begins with `KEY=`, and it is
/// `KEY=VALUE`.
pub proof fn lemma_set_key_unique(ls: Seq<Seq<char>>, key: Seq<char>, value: Seq<char>)
    ensures
        count_key(set_key(ls, key, value), key) == 1,
        lookup(set_key(ls, key, value), key) == Some(value),
    decreases ls.len(),
{
    let entry = entry_line(key, value);
    assert(is_entry(entry, key)) by {
        assert(entry.take(key.len() + 1 as int) =~= key.push('='));
    }
    assert(entry.skip(key.len() + 1 as int) =~= value);
    if ls.len() == 0 {
        let one = seq![entry];
        assert(one.drop_first() =~= Seq::<Seq<char>>::empty());
        assert(count_key(one.drop_first(), key) == 0);
    } else if is_entry(ls.first(), key) {
        let rest = without_key(ls.drop_first(), key);
        let set = seq![entry] + rest;
        lemma_without_key_twice(ls.drop_first(), key);
        assert(set.first() == entry);
        assert(set.drop_first() =~= rest);
    } else {
        lemma_set_key_unique(ls.drop_first(), key, value);
        let rest = set_key(ls.drop_first(), key, value);
        let set = seq![ls.first()] + rest;
        assert(set.first() == ls.first());
        assert(set.drop_first() =~= rest);
    }
}

/// Setting a key leaves the lines of other keys as they were, in their
/// order.
pub proof fn lemma_set_key_keeps_others(ls: Seq<Seq<char>>, key: Seq<char>, value: Seq<char>)
    ensures
        without_key(set_key(ls, key, value), key) == without_key(ls, key),
    decreases ls.len(),
{
    let entry = entry_line(key, value);
    assert(is_entry(entry, key)) by {
        assert(entry.take(key.len() + 1 as int) =~= key.push('='));
    }
    if ls.len() == 0 {
        let one = seq![entry];
        assert(one.drop_first() =~= Seq::<Seq<char>>::empty());
        assert(without_key(one, key) == without_key(one.drop_first(), key));
        assert(without_key(ls, key) =~= Seq::<Seq<char>>::empty());
    } else if is_entry(ls.first(), key) {
        let rest = without_key(ls.drop_first(), key);
        let set = seq![entry] + rest;
        lemma_without_key_twice(ls.drop_first(), key);
        assert(set.first() == entry);
        assert(set.drop_first() =~= rest);
    } else {
        lemma_set_key_keeps_others(ls.drop_first(), key, value);
        let rest = set_key(ls.drop_first(), key, value);
        let set = seq![ls.first()] + rest;
        assert(set.first() == ls.first());
        assert(set.drop_first() =~= rest);
    }
}

/// Setting a key a second time to the same value changes no line.
pub proof fn lemma_set_key_idempotent(ls: Seq<Seq<char>>, key: Seq<char>, value: Seq<char>)
    ensures
        set_key(set_key(ls, key, value), key, value) == set_key(ls, key, value),
    decreases ls.len(),
{
    let entry = entry_line(key, value);
    assert(is_entry(entry, key)) by {
        assert(entry.take(key.len() + 1 as int) =~= key.push('='));
    }
    if ls.len() == 0 {
        let one = seq![entry];
        assert(one.first() == entry);
        assert(one.drop_first() =~= Seq::<Seq<char>>::empty());
        assert(seq![entry] + without_key(one.drop_first(), key) =~= one);
    } else if is_entry(ls.first(), key) {
        let rest = without_key(ls.drop_first(), key);
        let set = seq![entry] + rest;
        lemma_without_key_twice(ls.drop_first(), key);
        assert(set.first() == entry);
        assert(set.drop_first() =~= rest);
    } else {
        lemma_set_key_idempotent(ls.drop_first(), key, value);
        let rest = set_key(ls.drop_first(), key, value);
        let set = seq![ls.first()] + rest;
        assert(set.first() == ls.first());
        assert(set.drop_first() =~= rest);
    }
}

/// Lines without a key's lines are among the lines they were taken from.
proof fn lemma_without_key_plain(ls: Seq<Seq<char>>, key: Seq<char>)
    requires
        plain_lines(ls),
    ensures
        plain_lines(without_key(ls, key)),
    decreases ls.len(),
{
    if ls.len() > 0 {
        let rest = ls.drop_first();
        assert(plain_lines(rest)) by {
            assert forall|i: int| 0 <= i < rest.len() implies no_line_break(#[trigger] rest[i]) by {
                assert(rest[i] == ls[i + 1]);
            }
        }
        lemma_without_key_plain(rest, key);
        assert(no_line_break(ls[0]));
    }
}

/// Setting a key in lines without line feeds, to a key and value without
/// one, gives lines without line feeds.
pub proof fn lemma_set_key_plain(ls: Seq<Seq<char>>, key: Seq<char>, value: Seq<char>)
    ensures
        plain_lines(ls) && no_line_break(key) && no_line_break(value) ==> plain_lines(
            set_key(ls, key, value),
        ),
    decreases ls.len(),
{
    if plain_lines(ls) && no_line_break(key) && no_line_break(value) {
        let entry = entry_line(key, value);
        assert(no_line_break(entry));
        if ls.len() > 0 {
            let rest = ls.drop_first();
            assert(plain_lines(rest)) by {
                assert forall|i: int| 0 <= i < rest.len() implies no_line_break(
                    #[trigger] rest[i],
                ) by {
                    assert(rest[i] == ls[i + 1]);
                }
            }
            assert(no_line_break(ls[0]));
            if is_entry(ls.first(), key) {
                lemma_without_key_plain(rest, key);
            } else {
                lemma_set_key_plain(rest, key, value);
            }
        }
    }
}

/// Setting a key twice to the same value writes the same file as setting it
/// once, where neither the key nor the value holds a line feed.
pub proof fn lemma_update_idempotent(content: Seq<char>, key: Seq<char>, value: Seq<char>)
    requires
        no_line_break(key),
        no_line_break(value),
    ensures
        updated(updated(content, key, value), key, value) == updated(content, key, value),
{
    let set = set_key(lines(content), key, value);
    lemma_lines_are_plain(content);
    lemma_set_key_plain(lines(content), key, value);
    lemma_lines_of_render(set);
    lemma_set_key_idempotent(lines(content), key, value);
}

/// After a key is set, the file has exactly one line that begins with
/// `KEY=`, it gives the key the value that was set, and the lines of other
/// keys are those of before, in their order; where neither the key nor the
/// value holds a line feed.
pub proof fn lemma_update_sets_one_line(content: Seq<char>, key: Seq<char>, value: Seq<char>)
    requires
        no_line_break(key),
        no_line_break(value),
    ensures
        count_key(lines(updated(content, key, value)), key) == 1,
        lookup(lines(updated(content, key, value)), key) == Some(value),
        without_key(lines(updated(content, key, value)), key) == without_key(
            lines(content),
            key,
        ),
{
    let set = set_key(lines(content), key, value);
    lemma_lines_are_plain(content);
    lemma_set_key_plain(lines(content), key, value);
    lemma_lines_of_render(set);
    lemma_set_key_unique(lines(content), key, value);
    lemma_set_key_keeps_others(lines(content), key, value);
}

} // verus!
