//! Hints that a command line shows behind what was typed.

use vstd::prelude::*;
use vstd::string::StringExecFns;
use vstd::string::StringSliceAdditionalSpecFns;
use vstd::utf8::{
    encode_utf8, encode_utf8_first_scalar, encode_utf8_valid_utf8, is_char_boundary,
    length_of_first_scalar, pop_first_scalar, valid_utf8, valid_utf8_split,
};

verus! {

/// A hint: the text to show, and how many of its bytes a completion takes
/// over into the line (none where the count is 0).
#[derive(Debug)]
pub struct CommandHint {
    display: String,
    complete_up_to: usize,
}

/// The mathematical content of a [`CommandHint`].
pub struct HintView {
    pub display: Seq<char>,
    pub complete_up_to: nat,
}

impl HintView {
    /// The count of bytes that a completion takes over lies between two
    /// characters of the text.
    pub open spec fn well_formed(self) -> bool {
        is_char_boundary(encode_utf8(self.display), self.complete_up_to as int)
    }
}

impl View for CommandHint {
    type V = HintView;

    closed spec fn view(&self) -> HintView {
        HintView { display: self.display@, complete_up_to: self.complete_up_to as nat }
    }
}

impl Clone for CommandHint {
    fn clone(&self) -> (copy: Self)
        ensures
            copy@ == self@,
    {
        CommandHint { display: self.display.clone(), complete_up_to: self.complete_up_to }
    }
}

/// The bytes of a text begin with the bytes of each text that it begins
/// with, and these end between two characters.
pub proof fn lemma_prefix_is_boundary(prefix: Seq<char>, text: Seq<char>)
    requires
        prefix.is_prefix_of(text),
    ensures
        encode_utf8(prefix).len() <= encode_utf8(text).len(),
        is_char_boundary(encode_utf8(text), encode_utf8(prefix).len() as int),
    decreases prefix.len(),
{
    encode_utf8_valid_utf8(text);
    if prefix.len() > 0 {
        let bytes = encode_utf8(text);
        encode_utf8_first_scalar(text);
        encode_utf8_first_scalar(prefix);
        assert(text[0] == prefix[0]);
        assert(pop_first_scalar(bytes) =~= encode_utf8(text.drop_first()));
        assert(prefix.drop_first().is_prefix_of(text.drop_first())) by {
            assert(prefix.drop_first() =~= text.drop_first().subrange(0, prefix.len() - 1));
        }
        lemma_prefix_is_boundary(prefix.drop_first(), text.drop_first());
    }
}

/// Where a text is cut between two characters, what lay between two
/// characters behind the cut still does in the rest.
pub proof fn lemma_boundary_after(bytes: Seq<u8>, strip: int, upto: int)
    requires
        valid_utf8(bytes),
        is_char_boundary(bytes, strip),
        is_char_boundary(bytes, upto),
        strip <= upto,
    ensures
        valid_utf8(bytes.subrange(strip, bytes.len() as int)),
        is_char_boundary(bytes.subrange(strip, bytes.len() as int), upto - strip),
    decreases bytes.len(),
{
    valid_utf8_split(bytes, strip);
    if strip == 0 {
        assert(bytes.subrange(0, bytes.len() as int) =~= bytes);
    } else {
        let first = length_of_first_scalar(bytes);
        let rest = pop_first_scalar(bytes);
        assert(first >= 1);
        lemma_boundary_after(rest, strip - first, upto - first);
        assert(rest.subrange(strip - first, rest.len() as int) =~= bytes.subrange(
            strip,
            bytes.len() as int,
        ));
    }
}

/// The bytes that are left of a text after its first `strip` bytes.
pub open spec fn bytes_after(text: Seq<char>, strip: int) -> Seq<u8> {
    encode_utf8(text).subrange(strip, encode_utf8(text).len() as int)
}

/// The first `upto` bytes of a text.
pub open spec fn bytes_before(text: Seq<char>, upto: int) -> Seq<u8> {
    encode_utf8(text).subrange(0, upto)
}

impl CommandHint {
    /// The count of bytes that a completion takes over lies between two
    /// characters of the text. Every hint that this module hands out is
    /// well formed.
    pub open spec fn well_formed(&self) -> bool {
        self@.well_formed()
    }

    /// A hint that shows `text` and completes as far as `complete_up_to`,
    /// which `text` must begin with.
    pub fn new(text: &str, complete_up_to: &str) -> (hint: CommandHint)
        requires
            complete_up_to@.is_prefix_of(text@),
        ensures
            hint@.display == text@,
            hint@.complete_up_to == encode_utf8(complete_up_to@).len(),
            hint.well_formed(),
    {
        proof {
            lemma_prefix_is_boundary(complete_up_to@, text@);
        }
        CommandHint { display: text.to_owned(), complete_up_to: complete_up_to.as_bytes().len() }
    }

    /// A hint that shows `text` and completes nothing, as a hint taken from
    /// the history does.
    pub fn shown_only(text: String) -> (hint: CommandHint)
        ensures
            hint@.display == text@,
            hint@.complete_up_to == 0,
            hint.well_formed(),
    {
        proof {
            encode_utf8_valid_utf8(text@);
        }
        CommandHint { display: text, complete_up_to: 0 }
    }

    /// The text to show.
    pub fn display(&self) -> (text: &str)
        ensures
            text@ == self@.display,
    {
        self.display.as_str()
    }

    /// How many bytes of the text a completion takes over.
    pub fn complete_up_to(&self) -> (count: usize)
        ensures
            count == self@.complete_up_to,
    {
        self.complete_up_to
    }

    /// The hint that is left once the first `strip_chars` bytes of the text
    /// are typed: the rest of the text, completing that much less, and
    /// nothing where more was typed than a completion takes over.
    /// `strip_chars` must lie between two characters of the text.
    pub fn suffix(&self, strip_chars: usize) -> (rest: CommandHint)
        requires
            self.well_formed(),
            is_char_boundary(encode_utf8(self@.display), strip_chars as int),
        ensures
            encode_utf8(rest@.display) == bytes_after(self@.display, strip_chars as int),
            rest@.complete_up_to == if self@.complete_up_to >= strip_chars {
                self@.complete_up_to - strip_chars
            } else {
                0
            },
            rest.well_formed(),
    {
        proof {
            let bytes = encode_utf8(self@.display);
            encode_utf8_valid_utf8(self@.display);
            if self@.complete_up_to >= strip_chars {
                lemma_boundary_after(bytes, strip_chars as int, self@.complete_up_to as int);
            } else {
                lemma_boundary_after(bytes, strip_chars as int, strip_chars as int);
            }
        }
        let (_, rest) = self.display.as_str().split_at(strip_chars);
        let complete_up_to = if self.complete_up_to >= strip_chars {
            self.complete_up_to - strip_chars
        } else {
            0
        };
        CommandHint { display: rest.to_owned(), complete_up_to }
    }

    /// The part of the text that a completion takes over into the line, if
    /// it takes any.
    pub fn completion(&self) -> (taken: Option<&str>)
        requires
            self.well_formed(),
        ensures
            self@.complete_up_to == 0 <==> taken is None,
            taken matches Some(text) ==> encode_utf8(text@) == bytes_before(
                self@.display,
                self@.complete_up_to as int,
            ),
    {
        if self.complete_up_to > 0 {
            let (taken, _) = self.display.as_str().split_at(self.complete_up_to);
            Some(taken)
        } else {
            None
        }
    }
}

/// A hint is shown behind `line` with the cursor at byte `pos`: the line
/// is not empty and the cursor stands at its end.
pub open spec fn hinting(line: Seq<char>, pos: int) -> bool {
    line.len() > 0 && pos >= encode_utf8(line).len()
}

/// The hint `command` can be stripped of its first `pos` bytes: there is
/// such a hint, it is well formed, and `pos` lies between two characters of
/// its text.
pub open spec fn fits(command: Option<HintView>, pos: int) -> bool {
    command matches Some(c) && c.well_formed() && is_char_boundary(encode_utf8(c.display), pos)
}

/// The hint to show behind `line` with the cursor at byte `pos`. Nothing is
/// shown for an empty line or while the cursor stands inside the line. Else
/// the hint of the command that the line begins, without what is typed, goes
/// first, and a hint from the history, which completes nothing, comes only
/// where no command fits.
pub fn hint_for(line: &str, pos: usize, command: Option<&CommandHint>, history: Option<String>)
    -> (hint: Option<CommandHint>)
    ensures
        hint matches Some(h) ==> h.well_formed(),
        !hinting(line@, pos as int) ==> hint is None,
        hinting(line@, pos as int) ==> match (command, history) {
            (Some(c), _) if fits(Some(c@), pos as int) => hint matches Some(h) && encode_utf8(
                h@.display,
            ) == bytes_after(c@.display, pos as int) && h@.complete_up_to == if c@.complete_up_to
                >= pos {
                c@.complete_up_to - pos
            } else {
                0
            },
            (_, Some(text)) => hint matches Some(h) && h@.display == text@ && h@.complete_up_to
                == 0,
            (_, None) => hint is None,
        },
{
    if line.is_empty() || pos < line.as_bytes().len() {
        return None;
    }
    match command {
        Some(c) if c.display().is_char_boundary(c.complete_up_to())
            && c.display().is_char_boundary(pos) => Some(c.suffix(pos)),
        _ => match history {
            Some(text) => Some(CommandHint::shown_only(text)),
            None => None,
        },
    }
}

#[verifier::external_type_specification]
#[verifier::external_body]
#[verifier::reject_recursive_types(K)]
#[verifier::reject_recursive_types(V)]
pub struct ExTrie<K, V>(radix_trie::Trie<K, V>);

/// The hints that a trie holds, each under its key.
pub uninterp spec fn hints_held(trie: radix_trie::Trie<String, CommandHint>) -> Map<
    Seq<char>,
    HintView,
>;

/// The hint that shows `text` and completes as far as `prefix`.
pub open spec fn hint_of(text: Seq<char>, prefix: Seq<char>) -> HintView {
    HintView { display: text, complete_up_to: encode_utf8(prefix).len() }
}

/// No hints.
pub open spec fn no_hints() -> Map<Seq<char>, HintView> {
    Map::empty()
}

/// The hints of the commands that the command line knows, each under the
/// text it shows.
pub open spec fn command_hints() -> Map<Seq<char>, HintView> {
    no_hints().insert("help"@, hint_of("help"@, "help"@)).insert(
        "get key"@,
        hint_of("get key"@, "get "@),
    ).insert("set key value"@, hint_of("set key value"@, "set "@)).insert(
        "hget key field"@,
        hint_of("hget key field"@, "hget "@),
    ).insert("hset key field value"@, hint_of("hset key field value"@, "hset "@))
}

/// `Trie::new` of radix_trie: a trie that holds nothing.
#[verifier::external_body]
fn empty_trie() -> (trie: radix_trie::Trie<String, CommandHint>)
    ensures
        hints_held(trie) == no_hints(),
{
    radix_trie::Trie::new()
}

/// `Trie::insert` of radix_trie: the trie then holds the hint under the
/// key, in place of what the key had, and everything else as before.
#[verifier::external_body]
fn trie_insert(trie: &mut radix_trie::Trie<String, CommandHint>, key: String, hint: CommandHint)
    ensures
        hints_held(*final(trie)) == hints_held(*old(trie)).insert(key@, hint@),
{
    trie.insert(key, hint);
}

/// The content of a hint, where there is one.
pub open spec fn hint_view(hint: Option<&CommandHint>) -> Option<HintView> {
    match hint {
        Some(h) => Some(h@),
        None => None,
    }
}

/// The bytes of `key` begin with the bytes of `line`.
pub open spec fn begins_with(key: Seq<char>, line: Seq<char>) -> bool {
    encode_utf8(line).is_prefix_of(encode_utf8(key))
}

/// What a lookup of `line` may give among the hints `held`: a hint that is
/// held under a key that begins with `line`, or nothing; and where `line`
/// itself is a key, the hint held under it.
pub open spec fn may_come_back(
    held: Map<Seq<char>, HintView>,
    line: Seq<char>,
    found: Option<HintView>,
) -> bool {
    &&& found matches Some(hint) ==> exists|key: Seq<char>| #[trigger]
        held.contains_key(key) && held[key] == hint && begins_with(key, line)
    &&& held.contains_key(line) ==> found == Some(held[line])
}

/// `Trie::get_raw_descendant` of radix_trie, and the value of the node it
/// finds. A hint that comes back is held under a key whose bytes
/// begin with the bytes of `line`; and where `line` itself is a key, its
/// hint comes back. Which hint comes back where several keys begin with
/// `line`, and whether one does, is left open.
#[verifier::external_body]
fn closest_hint<'a>(trie: &'a radix_trie::Trie<String, CommandHint>, line: &str) -> (found: Option<&'a CommandHint>)
    ensures
        may_come_back(hints_held(*trie), line@, hint_view(found)),
{
    trie.get_raw_descendant(line).and_then(|node| radix_trie::TrieCommon::value(&node))
}

/// The trie of the hints of the commands that the command line knows.
pub fn diy_hints() -> (trie: radix_trie::Trie<String, CommandHint>)
    ensures
        hints_held(trie) == command_hints(),
{
    let mut trie = empty_trie();
    proof {
        reveal_strlit("help");
        reveal_strlit("get key");
        reveal_strlit("get ");
        reveal_strlit("set key value");
        reveal_strlit("set ");
        reveal_strlit("hget key field");
        reveal_strlit("hget ");
        reveal_strlit("hset key field value");
        reveal_strlit("hset ");
    }
    trie_insert(&mut trie, String::from_str("help"), CommandHint::new("help", "help"));
    trie_insert(&mut trie, String::from_str("get key"), CommandHint::new("get key", "get "));
    trie_insert(
        &mut trie,
        String::from_str("set key value"),
        CommandHint::new("set key value", "set "),
    );
    trie_insert(
        &mut trie,
        String::from_str("hget key field"),
        CommandHint::new("hget key field", "hget "),
    );
    trie_insert(
        &mut trie,
        String::from_str("hset key field value"),
        CommandHint::new("hset key field value", "hset "),
    );
    trie
}

/// `shown` is `hint` without its first `pos` bytes: it shows the rest of the
/// text and completes that much less, and nothing where `pos` lies behind
/// what `hint` completes.
pub open spec fn stripped(hint: HintView, pos: int, shown: HintView) -> bool {
    encode_utf8(shown.display) == bytes_after(hint.display, pos) && shown.complete_up_to == if
        hint.complete_up_to >= pos {
        hint.complete_up_to - pos
    } else {
        0
    }
}

/// The hint to show behind `line` with the cursor at byte `pos`, from the
/// hints that `trie` holds and, where none of them fits, from `history`.
/// Nothing is shown for an empty line or while the cursor stands inside the
/// line. A hint of the trie that is shown belongs to a key that begins with
/// the line, and is shown without its first `pos` bytes; a hint from the
/// history is shown whole and completes nothing.
pub fn hint(
    trie: &radix_trie::Trie<String, CommandHint>,
    line: &str,
    pos: usize,
    history: Option<String>,
) -> (shown: Option<CommandHint>)
    ensures
        shown matches Some(h) ==> h.well_formed(),
        !hinting(line@, pos as int) ==> shown is None,
        shown matches Some(h) ==> (history matches Some(text) && h@ == hint_of(text@, seq![]))
            || exists|key: Seq<char>| #[trigger]
            hints_held(*trie).contains_key(key) && begins_with(key, line@) && fits(
                Some(hints_held(*trie)[key]),
                pos as int,
            ) && stripped(hints_held(*trie)[key], pos as int, h@),
        hinting(line@, pos as int) && hints_held(*trie).contains_key(line@) && fits(
            Some(hints_held(*trie)[line@]),
            pos as int,
        ) ==> (shown matches Some(h) && stripped(hints_held(*trie)[line@], pos as int, h@)),
        hinting(line@, pos as int) && history is Some ==> shown is Some,
{
    if line.is_empty() || pos < line.as_bytes().len() {
        return None;
    }
    let found = closest_hint(trie, line);
    hint_for(line, pos, found, history)
}

} // verus!
