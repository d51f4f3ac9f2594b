//! The token pair in the environment file: the access token under
//! `API_TOKEN` and the refresh token under `REFRESH_TOKEN`, always written
//! together.
use vstd::prelude::*;
use crate::auth::TokenPair;
use crate::env_file::{
    entry_line, is_entry, lemma_lines_are_plain, lemma_lines_of_render, lemma_set_key_plain,
    lemma_set_key_unique, lines, lookup, no_line_break, set_key, update_env_file, updated,
    without_key, EnvFile,
};

verus! {

/// The content of the environment file after both tokens are written to
/// `content`.
pub open spec fn tokens_stored(content: Seq<char>, access: Seq<char>, refresh: Seq<char>) -> Seq<
    char,
> {
    updated(updated(content, "API_TOKEN"@, access), "REFRESH_TOKEN"@, refresh)
}

/// The token pair that `content` holds; a token that it does not hold is
/// empty.
pub open spec fn tokens_read(content: Seq<char>) -> (Seq<char>, Seq<char>) {
    (
        match lookup(lines(content), "API_TOKEN"@) {
            Some(access) => access,
            None => Seq::empty(),
        },
        match lookup(lines(content), "REFRESH_TOKEN"@) {
            Some(refresh) => refresh,
            None => Seq::empty(),
        },
    )
}

/// Writes both tokens to `content`, the content of the environment file,
/// and gives its new content.
pub fn store_tokens(content: &str, access: &str, refresh: &str) -> (out: String)
    ensures
        out@ == tokens_stored(content@, access@, refresh@),
{
    let first = update_env_file(content, "API_TOKEN", access);
    update_env_file(first.as_str(), "REFRESH_TOKEN", refresh)
}

/// Reads the token pair from `content`, the content of the environment
/// file. A token that the file does not hold is empty.
pub fn read_tokens(content: &str) -> (pair: TokenPair)
    ensures
        pair@ == tokens_read(content@),
{
    let file = EnvFile::parse(content);
    let access = match file.get("API_TOKEN") {
        Some(access) => access,
        None => String::new(),
    };
    let refresh = match file.get("REFRESH_TOKEN") {
        Some(refresh) => refresh,
        None => String::new(),
    };
    TokenPair { access, refresh }
}

/// A line that begins with `KEY=` begins with the first character of the
/// key.
proof fn lemma_entry_first(line: Seq<char>, key: Seq<char>)
    requires
        key.len() > 0,
        is_entry(line, key),
    ensures
        line.len() > 0,
        line[0] == key[0],
{
    let prefix = key.push('=');
    assert(line.take(prefix.len() as int)[0] == prefix[0]);
}

/// Removing the lines of one key leaves the value of a key that begins with
/// another character.
proof fn lemma_without_key_keeps_lookup(ls: Seq<Seq<char>>, key: Seq<char>, other: Seq<char>)
    requires
        key.len() > 0,
        other.len() > 0,
        key[0] != other[0],
    ensures
        lookup(without_key(ls, key), other) == lookup(ls, other),
    decreases ls.len(),
{
    if ls.len() > 0 {
        lemma_without_key_keeps_lookup(ls.drop_first(), key, other);
        if is_entry(ls.first(), key) {
            lemma_entry_first(ls.first(), key);
            if is_entry(ls.first(), other) {
                lemma_entry_first(ls.first(), other);
            }
        } else {
            let kept = seq![ls.first()] + without_key(ls.drop_first(), key);
            assert(kept.first() == ls.first());
            assert(kept.drop_first() =~= without_key(ls.drop_first(), key));
        }
    }
}

/// Setting one key leaves the value of a key that begins with another
/// character.
pub proof fn lemma_set_key_keeps_lookup(
    ls: Seq<Seq<char>>,
    key: Seq<char>,
    value: Seq<char>,
    other: Seq<char>,
)
    requires
        key.len() > 0,
        other.len() > 0,
        key[0] != other[0],
    ensures
        lookup(set_key(ls, key, value), other) == lookup(ls, other),
    decreases ls.len(),
{
    let entry = entry_line(key, value);
    assert(is_entry(entry, key)) by {
        assert(entry.take(key.len() + 1 as int) =~= key.push('='));
    }
    lemma_entry_first(entry, key);
    if is_entry(entry, other) {
        lemma_entry_first(entry, other);
    }
    if ls.len() == 0 {
        let one = seq![entry];
        assert(one.first() == entry);
        assert(one.drop_first() =~= Seq::<Seq<char>>::empty());
        assert(lookup(one, other) == lookup(one.drop_first(), other));
    } else if is_entry(ls.first(), key) {
        lemma_entry_first(ls.first(), key);
        if is_entry(ls.first(), other) {
            lemma_entry_first(ls.first(), other);
        }
        lemma_without_key_keeps_lookup(ls.drop_first(), key, other);
        let set = seq![entry] + without_key(ls.drop_first(), key);
        assert(set.first() == entry);
        assert(set.drop_first() =~= without_key(ls.drop_first(), key));
        assert(lookup(set, other) == lookup(set.drop_first(), other));
        assert(lookup(ls, other) == lookup(ls.drop_first(), other));
    } else {
        lemma_set_key_keeps_lookup(ls.drop_first(), key, value, other);
        let set = seq![ls.first()] + set_key(ls.drop_first(), key, value);
        assert(set.first() == ls.first());
        assert(set.drop_first() =~= set_key(ls.drop_first(), key, value));
    }
}

/// The two keys hold no line feed and begin with different characters.
pub proof fn lemma_token_keys()
    ensures
        no_line_break("API_TOKEN"@),
        no_line_break("REFRESH_TOKEN"@),
        "API_TOKEN"@.len() > 0,
        "REFRESH_TOKEN"@.len() > 0,
        "API_TOKEN"@[0] != "REFRESH_TOKEN"@[0],
{
    reveal_strlit("API_TOKEN");
    reveal_strlit("REFRESH_TOKEN");
}

/// What is stored is what is read: after the two tokens are written, the
/// file gives back exactly that pair, where neither token holds a line
/// feed.
pub proof fn lemma_stored_tokens_are_read(
    content: Seq<char>,
    access: Seq<char>,
    refresh: Seq<char>,
)
    requires
        no_line_break(access),
        no_line_break(refresh),
    ensures
        tokens_read(tokens_stored(content, access, refresh)) == (access, refresh),
{
    lemma_token_keys();
    let first = set_key(lines(content), "API_TOKEN"@, access);
    lemma_lines_are_plain(content);
    lemma_set_key_plain(lines(content), "API_TOKEN"@, access);
    lemma_lines_of_render(first);
    lemma_set_key_unique(lines(content), "API_TOKEN"@, access);
    let second = set_key(first, "REFRESH_TOKEN"@, refresh);
    lemma_set_key_plain(first, "REFRESH_TOKEN"@, refresh);
    lemma_lines_of_render(second);
    lemma_set_key_unique(first, "REFRESH_TOKEN"@, refresh);
    lemma_set_key_keeps_lookup(first, "REFRESH_TOKEN"@, refresh, "API_TOKEN"@);
}

/// Writing a new access token beside the refresh token that the file
/// already holds leaves the refresh token as it was, where neither holds a
/// line feed.
pub proof fn lemma_refresh_token_stays(content: Seq<char>, access: Seq<char>)
    requires
        no_line_break(access),
        no_line_break(tokens_read(content).1),
    ensures
        tokens_read(tokens_stored(content, access, tokens_read(content).1)).1 == tokens_read(
            content,
        ).1,
{
    lemma_stored_tokens_are_read(content, access, tokens_read(content).1);
}

} // verus!
