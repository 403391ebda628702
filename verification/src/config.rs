//! The user's saved configuration (playlists, preferred audio output device,
//! Spotify backend) and the rules for editing it. Reading and writing it on
//! disk is left to the host application.

use vstd::prelude::*;
use crate::text::{
    after, before, chars_of, find, find_exec, has_prefix, has_prefix_exec, has_suffix, join, lacks,
    lemma_find, lemma_split_join, matches_at, slice_chars, split_chars, split_on, string_of, trim,
    trim_chars,
};

verus! {

/// A saved playlist: a display name and a `spotify:` URI.
pub struct Playlist {
    pub name: String,
    /// URI in the form `spotify:playlist:<id>`; links of the form
    /// `https://open.spotify.com/playlist/<id>` are turned into that form
    /// when the playlist is added (see `normalize_spotify_link`).
    pub uri: String,
}

impl Clone for Playlist {
    fn clone(&self) -> (out: Self)
        ensures
            out.name@ == self.name@,
            out.uri@ == self.uri@,
    {
        Playlist { name: self.name.clone(), uri: self.uri.clone() }
    }
}

/// Which mechanism talks to Spotify.
#[derive(Clone, Copy, Debug, PartialEq, Eq, Structural)]
pub enum Backend {
    /// Remote-controls an already open Spotify Desktop through the Windows
    /// System Media Transport Controls. No login, but the Spotify app must
    /// be running on the same PC.
    Smtc,
    /// Acts as a Spotify Connect device and plays the audio itself (needs an
    /// OAuth login and a Premium account). The default.
    Connect,
}

impl Default for Backend {
    fn default() -> (b: Self)
        ensures
            b == Backend::Connect,
    {
        Backend::Connect
    }
}

/// The persisted configuration.
pub struct Config {
    pub playlists: Vec<Playlist>,
    /// Id of the audio output device chosen for Spotify; `None` means the
    /// Windows default. Only used by the `Smtc` backend.
    pub preferred_output_device: Option<String>,
    /// Which backend to use; `Connect` by default.
    pub backend: Backend,
}

impl Default for Config {
    fn default() -> (c: Self)
        ensures
            c.playlists@.len() == 0,
            c.preferred_output_device is None,
            c.backend == Backend::Connect,
    {
        Config { playlists: Vec::new(), preferred_output_device: None, backend: Backend::Connect }
    }
}

/// The host part of an `open.spotify.com` link, including the slash after it.
pub open spec fn link_host() -> Seq<char> {
    "open.spotify.com/"@
}

/// The scheme of a Spotify URI.
pub open spec fn uri_scheme() -> Seq<char> {
    "spotify:"@
}

/// What `normalize_spotify_link` makes of `input`: a `spotify:` URI is kept;
/// a link `.../open.spotify.com/<kind>/<id>[?...]` becomes
/// `spotify:<kind>:<id>` when both parts are non-empty; anything else is
/// kept as it is.
pub open spec fn spotify_link(input: Seq<char>) -> Seq<char> {
    if has_prefix(input, uri_scheme()) {
        input
    } else {
        match after(input, link_host()) {
            None => input,
            Some(tail) => {
                let clean = before(before(tail, link_host()), seq!['?']);
                let parts = split_on(clean, '/');
                if parts.len() >= 2 && parts[0].len() > 0 && parts[1].len() > 0 {
                    uri_scheme() + parts[0] + seq![':'] + parts[1]
                } else {
                    input
                }
            },
        }
    }
}

/// Normalizing gives either a `spotify:` URI or the input unchanged, and
/// normalizing a second time changes nothing.
pub proof fn lemma_spotify_link_idempotent(input: Seq<char>)
    ensures
        has_prefix(spotify_link(input), uri_scheme()) || spotify_link(input) == input,
        spotify_link(spotify_link(input)) == spotify_link(input),
{
    let out = spotify_link(input);
    if out != input {
        assert(out.subrange(0, uri_scheme().len() as int) =~= uri_scheme());
    }
}

/// A web link to any Spotify item becomes its URI: for every non-empty kind
/// (`playlist`, `album`, `track`, `artist`, ...) and non-empty id, neither
/// holding `/` or `?`, normalizing `https://open.spotify.com/<kind>/<id>`
/// gives `spotify:<kind>:<id>`. (A kind that ends with `open.spotify.com`
/// is left out: the text after the host's second occurrence is empty, and
/// the link is kept as it is.)
pub proof fn lemma_open_link_becomes_uri(kind: Seq<char>, id: Seq<char>)
    requires
        kind.len() > 0,
        id.len() > 0,
        lacks(kind, '/') && lacks(kind, '?'),
        lacks(id, '/') && lacks(id, '?'),
        !has_suffix(kind, "open.spotify.com"@),
    ensures
        spotify_link("https://open.spotify.com/"@ + kind + "/"@ + id) == "spotify:"@ + kind + ":"@
            + id,
{
    let input = "https://open.spotify.com/"@ + kind + "/"@ + id;
    let tail = kind + seq!['/'] + id;
    lemma_link_tail(kind, id);
    lemma_tail_has_no_host(kind, id);
    lemma_tail_has_no_question_mark(kind, id);
    assert(before(tail, link_host()) == tail);
    assert(before(tail, seq!['?']) == tail);
    assert(split_on(tail, '/') == seq![kind, id]) by {
        lemma_split_join(seq![kind, id], '/');
        assert(seq![kind, id].drop_last() =~= seq![kind]);
        assert(seq![kind, id].last() == id);
        assert(join(seq![kind], seq!['/']) == kind);
        assert(join(seq![kind, id], seq!['/']) == kind + seq!['/'] + id);
    }
    assert(uri_scheme() + kind + seq![':'] + id =~= "spotify:"@ + kind + ":"@ + id) by {
        reveal_strlit("spotify:");
        reveal_strlit(":");
    }
}

/// `https://open.spotify.com/<kind>/<id>` is no URI, and what follows its
/// first `open.spotify.com/` is `<kind>/<id>`.
proof fn lemma_link_tail(kind: Seq<char>, id: Seq<char>)
    ensures
        !has_prefix("https://open.spotify.com/"@ + kind + "/"@ + id, uri_scheme()),
        after("https://open.spotify.com/"@ + kind + "/"@ + id, link_host()) == Some(
            kind + seq!['/'] + id,
        ),
{
    reveal_strlit("https://open.spotify.com/");
    reveal_strlit("open.spotify.com/");
    reveal_strlit("spotify:");
    reveal_strlit("/");
    let host = link_host();
    let input = "https://open.spotify.com/"@ + kind + "/"@ + id;
    let tail = kind + seq!['/'] + id;
    assert(input[0] == 'h');
    assert(uri_scheme()[0] == 's');
    assert(input.subrange(0, 8)[0] == input[0]);
    assert(matches_at(input, host, 8)) by {
        assert(input.subrange(8, 25) =~= host);
    }
    lemma_find(input, host);
    assert(find(input, host) == Some(8int)) by {
        if let Some(j) = find(input, host) {
            if j < 8 {
                assert(input.subrange(j, j + 17)[0] == input[j]);
                assert(host[0] == 'o');
                assert("https://open.spotify.com/"@[j] != 'o');
            }
        }
    }
    assert(input.skip(25) =~= tail);
}

/// `<kind>/<id>` holds no `open.spotify.com/` when neither part holds a `/`
/// and the kind does not end with `open.spotify.com`.
proof fn lemma_tail_has_no_host(kind: Seq<char>, id: Seq<char>)
    requires
        lacks(kind, '/'),
        lacks(id, '/'),
        !has_suffix(kind, "open.spotify.com"@),
    ensures
        find(kind + seq!['/'] + id, link_host()) is None,
{
    reveal_strlit("open.spotify.com/");
    reveal_strlit("open.spotify.com");
    let host = link_host();
    let tail = kind + seq!['/'] + id;
    lemma_find(tail, host);
    if let Some(j) = find(tail, host) {
        assert(tail.subrange(j, j + 17)[16] == tail[j + 16]);
        assert(host[16] == '/');
        assert(tail[j + 16] == '/');
        if j + 16 < kind.len() {
            assert(tail[j + 16] == kind[j + 16]);
        } else if j + 16 > kind.len() {
            assert(tail[j + 16] == id[j + 16 - kind.len() - 1]);
        } else {
            assert(kind.subrange(j, kind.len() as int) =~= "open.spotify.com"@) by {
                assert forall|i: int| 0 <= i < 16 implies kind.subrange(j, kind.len() as int)[i]
                    == "open.spotify.com"@[i] by {
                    assert(tail.subrange(j, j + 17)[i] == host[i]);
                    assert(host[i] == "open.spotify.com"@[i]);
                }
            }
            assert(has_suffix(kind, "open.spotify.com"@));
        }
    }
}

/// `<kind>/<id>` holds no `?` when neither part does.
proof fn lemma_tail_has_no_question_mark(kind: Seq<char>, id: Seq<char>)
    requires
        lacks(kind, '?'),
        lacks(id, '?'),
    ensures
        find(kind + seq!['/'] + id, seq!['?']) is None,
{
    let tail = kind + seq!['/'] + id;
    lemma_find(tail, seq!['?']);
    if let Some(j) = find(tail, seq!['?']) {
        assert(tail.subrange(j, j + 1)[0] == tail[j]);
        if j < kind.len() {
            assert(tail[j] == kind[j]);
        } else if j > kind.len() {
            assert(tail[j] == id[j - kind.len() - 1]);
        }
    }
}

/// `spotify_link` on characters.
fn normalize_chars(input: &Vec<char>) -> (out: Vec<char>)
    ensures
        out@ == spotify_link(input@),
{
    let scheme = chars_of("spotify:");
    if has_prefix_exec(input, &scheme) {
        return slice_chars(input, 0, input.len());
    }
    let host = chars_of("open.spotify.com/");
    proof {
        lemma_find(input@, host@);
        assert(input@.subrange(0, input@.len() as int) =~= input@);
    }
    let found = find_exec(input, &host);
    match found {
        None => slice_chars(input, 0, input.len()),
        Some(i) => {
            assert(i + host@.len() <= input@.len());
            assert(i + host.len() <= input.len());
            let tail = slice_chars(input, i + host.len(), input.len());
            assert(tail@ =~= input@.skip(i + host@.len()));
            let q: Vec<char> = vec!['?'];
            assert(q@ =~= seq!['?']);
            proof {
                lemma_find(tail@, host@);
            }
            let rest = match find_exec(&tail, &host) {
                Some(j) => slice_chars(&tail, 0, j),
                None => slice_chars(&tail, 0, tail.len()),
            };
            proof {
                assert(tail@.subrange(0, tail@.len() as int) =~= tail@);
                assert(rest@ == before(tail@, host@));
            }
            proof {
                lemma_find(rest@, q@);
            }
            let clean = match find_exec(&rest, &q) {
                Some(j) => slice_chars(&rest, 0, j),
                None => slice_chars(&rest, 0, rest.len()),
            };
            proof {
                assert(rest@.subrange(0, rest@.len() as int) =~= rest@);
                assert(clean@ == before(rest@, seq!['?']));
            }
            let parts = split_chars(&clean, '/');
            if parts.len() >= 2 && parts[0].len() > 0 && parts[1].len() > 0 {
                let mut out = chars_of("spotify:");
                let mut kind = slice_chars(&parts[0], 0, parts[0].len());
                let mut id = slice_chars(&parts[1], 0, parts[1].len());
                proof {
                    assert(kind@ =~= parts@[0]@);
                    assert(id@ =~= parts@[1]@);
                }
                out.append(&mut kind);
                out.push(':');
                out.append(&mut id);
                proof {
                    assert(out@ =~= uri_scheme() + parts@[0]@ + seq![':'] + parts@[1]@);
                }
                out
            } else {
                slice_chars(input, 0, input.len())
            }
        },
    }
}

/// Accepts either an `https://open.spotify.com/<kind>/<id>` link or a
/// ready `spotify:...` URI and gives back the URI form, the only one that
/// the player can open.
pub fn normalize_spotify_link(input: &str) -> (out: String)
    ensures
        out@ == spotify_link(input@),
{
    let chars = chars_of(input);
    let normalized = normalize_chars(&chars);
    string_of(&normalized)
}

/// Removing the playlist that was just added (the last one) gives back the
/// list as it was before.
pub proof fn lemma_add_then_remove(before: Seq<Playlist>, after_add: Seq<Playlist>)
    requires
        after_add.len() == before.len() + 1,
        after_add.take(before.len() as int) == before,
    ensures
        after_add.remove(before.len() as int) == before,
{
    assert(after_add.remove(before.len() as int) =~= before);
}

impl Config {
    /// Adds a playlist named `name` whose address is `uri_text` (a link or a
    /// URI, with surrounding white space ignored), unless the name or the
    /// address is empty. Returns whether it was added.
    pub fn add_playlist(&mut self, name: String, uri_text: &str) -> (added: bool)
        ensures
            added == (name@.len() > 0 && uri_text@.len() > 0),
            added ==> final(self).playlists@.len() == old(self).playlists@.len() + 1
                && final(self).playlists@.take(old(self).playlists@.len() as int)
                == old(self).playlists@
                && final(self).playlists@.last().name@ == name@
                && final(self).playlists@.last().uri@ == spotify_link(trim(uri_text@)),
            !added ==> final(self).playlists@ == old(self).playlists@,
            final(self).preferred_output_device == old(self).preferred_output_device,
            final(self).backend == old(self).backend,
    {
        if name.as_str().is_empty() || uri_text.is_empty() {
            return false;
        }
        let chars = chars_of(uri_text);
        let trimmed = trim_chars(&chars);
        let normalized = normalize_chars(&trimmed);
        let uri = string_of(&normalized);
        self.playlists.push(Playlist { name, uri });
        proof {
            assert(self.playlists@.take(old(self).playlists@.len() as int)
                =~= old(self).playlists@);
        }
        true
    }

    /// Adds a playlist from the desktop form: nothing happens when the
    /// address is blank; a blank name becomes `Sem nome`. Returns whether a
    /// playlist was added.
    pub fn add_playlist_from_form(&mut self, name: &str, uri_text: &str) -> (added: bool)
        ensures
            added == (trim(uri_text@).len() > 0),
            added ==> final(self).playlists@.len() == old(self).playlists@.len() + 1
                && final(self).playlists@.take(old(self).playlists@.len() as int)
                == old(self).playlists@
                && final(self).playlists@.last().name@ == (if trim(name@).len() == 0 {
                "Sem nome"@
            } else {
                name@
            }) && final(self).playlists@.last().uri@ == spotify_link(trim(uri_text@)),
            !added ==> final(self).playlists@ == old(self).playlists@,
            final(self).preferred_output_device == old(self).preferred_output_device,
            final(self).backend == old(self).backend,
    {
        let uri_chars = trim_chars(&chars_of(uri_text));
        if uri_chars.len() == 0 {
            return false;
        }
        let name_chars = chars_of(name);
        let shown = if trim_chars(&name_chars).len() == 0 {
            chars_of("Sem nome")
        } else {
            name_chars
        };
        let normalized = normalize_chars(&uri_chars);
        self.playlists.push(Playlist { name: string_of(&shown), uri: string_of(&normalized) });
        proof {
            assert(self.playlists@.take(old(self).playlists@.len() as int)
                =~= old(self).playlists@);
        }
        true
    }

    /// Removes the playlist at `index` (in list order), if there is one.
    /// Returns whether one was removed.
    pub fn remove_playlist(&mut self, index: usize) -> (removed: bool)
        ensures
            removed == (index < old(self).playlists@.len()),
            removed ==> final(self).playlists@ == old(self).playlists@.remove(index as int),
            !removed ==> final(self).playlists@ == old(self).playlists@,
            final(self).preferred_output_device == old(self).preferred_output_device,
            final(self).backend == old(self).backend,
    {
        if index >= self.playlists.len() {
            return false;
        }
        self.playlists.remove(index);
        true
    }
}

} // verus!
