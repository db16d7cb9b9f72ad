//! Keyboard mappings: parses "keycode action" text into a lookup table.
//!
//! A mapping string is a stream of tokens separated by spaces and
//! newlines; tokens that hold nothing but whitespace are dropped.  The
//! tokens alternate between a numeric keycode and the action name it maps
//! to; a trailing keycode without an action is ignored.
use vstd::prelude::*;
use vstd::string::StrSliceExecFns;

verus! {

/// The characters that end a token.
pub open spec fn is_separator(c: char) -> bool {
    c == ' ' || c == '\n'
}

/// The characters that do not count as token content.
pub open spec fn is_blank(c: char) -> bool {
    c == ' ' || c == '\n' || c == '\t' || c == '\r'
}

/// A token is kept only if something other than whitespace is in it.
pub open spec fn token_kept(t: Seq<char>) -> bool {
    exists|i: int| 0 <= i < t.len() && !is_blank(#[trigger] t[i])
}

/// The tokens of `s`, given that the characters of `cur` have already
/// been read into a partial token.
pub open spec fn tokens_from(s: Seq<char>, cur: Seq<char>) -> Seq<Seq<char>>
    decreases s.len(),
{
    if s.len() == 0 {
        if token_kept(cur) {
            seq![cur]
        } else {
            seq![]
        }
    } else if is_separator(s[0]) {
        (if token_kept(cur) {
            seq![cur]
        } else {
            seq![]
        }) + tokens_from(s.drop_first(), seq![])
    } else {
        tokens_from(s.drop_first(), cur.push(s[0]))
    }
}

/// The token stream of a mapping string.
pub open spec fn spec_tokens(s: Seq<char>) -> Seq<Seq<char>> {
    tokens_from(s, Seq::empty())
}

/// The value of a string of decimal digits.
pub open spec fn digits_val(t: Seq<char>) -> int
    decreases t.len(),
{
    if t.len() == 0 {
        0
    } else {
        digits_val(t.drop_last()) * 10 + (t.last() as u32 - '0' as u32)
    }
}

pub open spec fn all_digits(t: Seq<char>) -> bool {
    forall|i: int| 0 <= i < t.len() ==> '0' <= #[trigger] t[i] <= '9'
}

/// Whether a token is a keycode: an optionally signed decimal number
/// whose value fits the keycode type.
pub open spec fn is_keycode_token(t: Seq<char>) -> bool {
    if t.len() == 0 {
        false
    } else if t[0] == '-' {
        t.len() >= 2 && all_digits(t.drop_first()) && digits_val(t.drop_first()) <= 0x8000_0000
    } else if t[0] == '+' {
        t.len() >= 2 && all_digits(t.drop_first()) && digits_val(t.drop_first()) <= 0x7fff_ffff
    } else {
        all_digits(t) && digits_val(t) <= 0x7fff_ffff
    }
}

/// The keycode a keycode token denotes.
pub open spec fn keycode_val(t: Seq<char>) -> int {
    if t.len() > 0 && t[0] == '-' {
        -digits_val(t.drop_first())
    } else if t.len() > 0 && t[0] == '+' {
        digits_val(t.drop_first())
    } else {
        digits_val(t)
    }
}

/// The mapping that the first `k` keycode-action pairs of a token stream
/// denote; a later pair for the same keycode wins.
pub open spec fn map_upto(tokens: Seq<Seq<char>>, k: nat) -> Map<int, Seq<char>>
    decreases k,
{
    if k == 0 {
        Map::empty()
    } else {
        map_upto(tokens, (k - 1) as nat).insert(
            keycode_val(tokens[2 * (k - 1)]),
            tokens[2 * k - 1],
        )
    }
}

/// The mapping a whole mapping string denotes: its tokens, paired off,
/// with a trailing unpaired keycode ignored.
pub open spec fn spec_mappings(s: Seq<char>) -> Map<int, Seq<char>> {
    map_upto(spec_tokens(s), (spec_tokens(s).len() / 2) as nat)
}

/// Whether every keycode position of the token stream holds a valid
/// keycode token; anything else would be a configuration error.
pub open spec fn valid_mapping_str(s: Seq<char>) -> bool {
    forall|i: int|
        0 <= i < spec_tokens(s).len() && i % 2 == 0 ==> is_keycode_token(
            #[trigger] spec_tokens(s)[i],
        )
}

/// Relies on String::push: appends one character to the end of the string.
#[verifier::external_body]
fn push_char(s: &mut String, c: char)
    ensures
        final(s)@ == old(s)@.push(c),
{
    s.push(c)
}

/// Digit strings denote values that never shrink as the string grows.
proof fn lemma_digits_val_bounds(t: Seq<char>)
    requires
        all_digits(t),
    ensures
        digits_val(t) >= 0,
        forall|j: int| 0 <= j <= t.len() ==> #[trigger] digits_val(t.subrange(0, j)) <= digits_val(t),
        forall|j: int| 0 <= j <= t.len() ==> #[trigger] digits_val(t.subrange(0, j)) >= 0,
    decreases t.len(),
{
    if t.len() == 0 {
        assert forall|j: int| 0 <= j <= t.len() implies #[trigger] digits_val(t.subrange(0, j))
            <= digits_val(t) && digits_val(t.subrange(0, j)) >= 0 by {
            assert(t.subrange(0, j) =~= t);
        }
    } else {
        let pre = t.drop_last();
        assert(all_digits(pre)) by {
            assert(forall|i: int| 0 <= i < pre.len() ==> pre[i] == t[i]);
        }
        lemma_digits_val_bounds(pre);
        assert(digits_val(t) == digits_val(pre) * 10 + (t.last() as u32 - '0' as u32));
        assert(digits_val(pre) * 10 >= digits_val(pre)) by (nonlinear_arith)
            requires
                digits_val(pre) >= 0,
        ;
        assert forall|j: int| 0 <= j <= t.len() implies #[trigger] digits_val(t.subrange(0, j))
            <= digits_val(t) && digits_val(t.subrange(0, j)) >= 0 by {
            if j == t.len() {
                assert(t.subrange(0, j) =~= t);
            } else {
                assert(t.subrange(0, j) =~= pre.subrange(0, j));
            }
        }
    }
}

/// Parses a keycode token, exactly as its specification values it.
fn parse_keycode(token: &String) -> (r: i32)
    requires
        is_keycode_token(token@),
    ensures
        r as int == keycode_val(token@),
{
    let n = token.as_str().unicode_len();
    let first = token.as_str().get_char(0);
    let negative = first == '-';
    let start: usize = if first == '-' || first == '+' {
        1
    } else {
        0
    };
    let ghost digits = token@.subrange(start as int, n as int);
    proof {
        if start == 1 {
            assert(digits =~= token@.drop_first());
        } else {
            assert(digits =~= token@);
        }
        lemma_digits_val_bounds(digits);
    }
    let mut val: i64 = 0;
    let mut i: usize = start;
    while i < n
        invariant
            start <= i <= n,
            n == token@.len(),
            digits == token@.subrange(start as int, n as int),
            all_digits(digits),
            digits_val(digits) <= 0x8000_0000,
            val == digits_val(digits.subrange(0, i - start)),
            0 <= val <= 0x8000_0000,
        decreases n - i,
    {
        let c = token.as_str().get_char(i);
        proof {
            lemma_digits_val_bounds(digits);
            assert(digits.subrange(0, i + 1 - start).drop_last() =~= digits.subrange(
                0,
                i - start,
            ));
            assert(digits.subrange(0, i + 1 - start).last() == digits[i - start]);
            assert(digits[i - start] == token@[i as int]);
        }
        val = val * 10 + ((c as u32) as i64 - 48);
        i = i + 1;
        proof {
            assert(digits.subrange(0, i - start) =~= digits.subrange(0, (i - 1) - start).push(
                token@[i - 1],
            ));
            assert(digits_val(digits.subrange(0, i - start)) <= digits_val(digits));
        }
    }
    proof {
        assert(digits.subrange(0, n - start) =~= digits);
    }
    if negative {
        (-val) as i32
    } else {
        val as i32
    }
}

/// Loads keyboard mappings.
/// Mappings are defined as keycode (integer) -> action (string).
///
/// Viewed as a map from keycode to the action's characters.
#[derive(Debug)]
pub struct KeyboardMappings {
    key_map: Vec<(i32, String)>,
}

impl View for KeyboardMappings {
    type V = Map<int, Seq<char>>;

    closed spec fn view(&self) -> Map<int, Seq<char>> {
        key_entries_map(self.key_map@)
    }
}

/// The map a sequence of keycode-action pairs denotes; later pairs win.
pub open spec fn key_entries_map(entries: Seq<(i32, String)>) -> Map<int, Seq<char>>
    decreases entries.len(),
{
    if entries.len() == 0 {
        Map::empty()
    } else {
        key_entries_map(entries.drop_last()).insert(
            entries.last().0 as int,
            entries.last().1@,
        )
    }
}

/// No two entries of the sequence carry the same keycode.
pub open spec fn key_entries_unique(entries: Seq<(i32, String)>) -> bool {
    forall|i: int, j: int| 0 <= i < j < entries.len() ==> entries[i].0 != entries[j].0
}

/// With unique keycodes, membership in the denoted map is the same as
/// having an entry with that keycode, and the value is that entry's.
proof fn lemma_key_entries(entries: Seq<(i32, String)>, key: int)
    requires
        key_entries_unique(entries),
    ensures
        key_entries_map(entries).contains_key(key) <==> exists|i: int|
            0 <= i < entries.len() && (#[trigger] entries[i]).0 == key,
        forall|i: int|
            0 <= i < entries.len() && (#[trigger] entries[i]).0 == key ==> key_entries_map(
                entries,
            )[key] == entries[i].1@,
    decreases entries.len(),
{
    if entries.len() > 0 {
        let inner = entries.drop_last();
        let last = entries.len() - 1;
        lemma_key_entries(inner, key);
        assert(forall|i: int| 0 <= i < inner.len() ==> inner[i] == #[trigger] entries[i]);
        if entries[last].0 == key {
            assert forall|i: int|
                0 <= i < entries.len() && (#[trigger] entries[i]).0 == key implies key_entries_map(
                entries,
            )[key] == entries[i].1@ by {
                if i < last {
                    assert(entries[i].0 != entries[last].0);
                }
            }
        } else {
            assert forall|i: int|
                0 <= i < entries.len() && (#[trigger] entries[i]).0 == key implies key_entries_map(
                entries,
            )[key] == entries[i].1@ by {
                assert(i < last);
                assert(inner[i] == entries[i]);
            }
            if key_entries_map(entries).contains_key(key) {
                assert(key_entries_map(inner).contains_key(key));
            }
        }
    }
}

/// Overwriting the entry at `k` with the same keycode denotes inserting
/// into the map, and keeps the keycodes unique.
proof fn lemma_key_entries_update(entries: Seq<(i32, String)>, k: int, key: i32, s: String)
    requires
        0 <= k < entries.len(),
        key_entries_unique(entries),
        key == entries[k].0,
    ensures
        key_entries_map(entries.update(k, (key, s))) == key_entries_map(entries).insert(
            key as int,
            s@,
        ),
        key_entries_unique(entries.update(k, (key, s))),
    decreases entries.len(),
{
    let updated = entries.update(k, (key, s));
    if k < entries.len() - 1 {
        assert(updated.drop_last() =~= entries.drop_last().update(k, (key, s)));
        lemma_key_entries_update(entries.drop_last(), k, key, s);
        assert(key_entries_map(updated) =~= key_entries_map(entries).insert(key as int, s@));
    } else {
        assert(updated.drop_last() =~= entries.drop_last());
        assert(key_entries_map(updated) =~= key_entries_map(entries).insert(key as int, s@));
    }
}

impl KeyboardMappings {
    /// No two entries carry the same keycode.
    pub closed spec fn wf(self) -> bool {
        key_entries_unique(self.key_map@)
    }

    /// Finds the entry for a keycode, if any.
    fn find(&self, keycode: i32) -> (r: Option<usize>)
        requires
            self.wf(),
        ensures
            match r {
                Some(i) => i < self.key_map@.len() && self.key_map@[i as int].0 == keycode
                    && self@.contains_key(keycode as int) && self@[keycode as int]
                    == self.key_map@[i as int].1@,
                None => !self@.contains_key(keycode as int),
            },
    {
        proof {
            lemma_key_entries(self.key_map@, keycode as int);
        }
        let mut i: usize = 0;
        while i < self.key_map.len()
            invariant
                self.wf(),
                i <= self.key_map@.len(),
                forall|j: int| 0 <= j < i ==> self.key_map@[j].0 != keycode,
            decreases self.key_map@.len() - i,
        {
            if self.key_map[i].0 == keycode {
                proof {
                    lemma_key_entries(self.key_map@, keycode as int);
                }
                return Some(i);
            }
            i = i + 1;
        }
        None
    }

    /// Maps `keycode` to `action`, replacing any earlier mapping.
    fn insert_mapping(&mut self, keycode: i32, action: String)
        requires
            old(self).wf(),
        ensures
            final(self).wf(),
            final(self)@ == old(self)@.insert(keycode as int, action@),
    {
        let ghost pre = self.key_map@;
        match self.find(keycode) {
            Some(i) => {
                proof {
                    lemma_key_entries_update(pre, i as int, keycode, action);
                }
                self.key_map.set(i, (keycode, action));
            },
            None => {
                self.key_map.push((keycode, action));
                proof {
                    assert(self.key_map@.drop_last() =~= pre);
                    lemma_key_entries(pre, keycode as int);
                }
            },
        }
    }

    /// Creates a new keyboard mapper given a keyboard mapping string.
    pub fn new(mappings: &str) -> (r: KeyboardMappings)
        requires
            valid_mapping_str(mappings@),
        ensures
            r.wf(),
            r@ == spec_mappings(mappings@),
    {
        let token_stream = tokenize(mappings);
        let ghost tokens = spec_tokens(mappings@);

        let mut keyboard_mappings = KeyboardMappings { key_map: Vec::new() };
        let mut idx: usize = 0;
        while idx + 1 < token_stream.len()
            invariant
                valid_mapping_str(mappings@),
                tokens == spec_tokens(mappings@),
                token_stream@.map_values(|t: String| t@) == tokens,
                idx % 2 == 0,
                idx <= token_stream@.len(),
                keyboard_mappings.wf(),
                keyboard_mappings@ == map_upto(tokens, (idx / 2) as nat),
            decreases token_stream@.len() - idx,
        {
            proof {
                assert(tokens[idx as int] == token_stream@.map_values(|t: String| t@)[idx as int]);
                assert(2 * ((idx as int) / 2) == idx as int);
            }
            let keycode = parse_keycode(&token_stream[idx]);
            let action = clone_string(&token_stream[idx + 1]);
            keyboard_mappings.insert_mapping(keycode, action);
            idx = idx + 2;
            proof {
                assert(keyboard_mappings@ == map_upto(tokens, (idx / 2) as nat));
            }
        }
        proof {
            assert((idx / 2) as nat == (tokens.len() / 2) as nat);
        }
        keyboard_mappings
    }

    /// Returns the action command given a keycode.
    pub fn get_action(&self, keycode: i32) -> (r: Option<&String>)
        requires
            self.wf(),
        ensures
            match r {
                Some(action) => self@.contains_key(keycode as int) && action@ == self@[keycode as int],
                None => !self@.contains_key(keycode as int),
            },
    {
        match self.find(keycode) {
            Some(i) => Some(&self.key_map[i].1),
            None => None,
        }
    }
}

/// Clones a string (the standard clone carries no specification).
fn clone_string(s: &String) -> (r: String)
    ensures
        r@ == s@,
{
    String::from_str(s.as_str())
}

/// Splits a mapping string into its kept tokens.
fn tokenize(mappings: &str) -> (r: Vec<String>)
    ensures
        r@.map_values(|t: String| t@) == spec_tokens(mappings@),
{
    let n = mappings.unicode_len();
    let mut out: Vec<String> = Vec::new();
    let mut cur = String::new();
    let mut has_content = false;
    proof {
        assert(mappings@.subrange(0, n as int) =~= mappings@);
        assert(out@.map_values(|t: String| t@) + tokens_from(mappings@, cur@) =~= tokens_from(
            mappings@,
            cur@,
        ));
    }
    let mut i: usize = 0;
    while i < n
        invariant
            i <= n,
            n == mappings@.len(),
            has_content == token_kept(cur@),
            out@.map_values(|t: String| t@) + tokens_from(
                mappings@.subrange(i as int, n as int),
                cur@,
            ) =~= spec_tokens(mappings@),
        decreases n - i,
    {
        let ghost rest = mappings@.subrange(i as int, n as int);
        let c = mappings.get_char(i);
        proof {
            assert(rest[0] == mappings@[i as int]);
            assert(rest.drop_first() =~= mappings@.subrange(i + 1, n as int));
        }
        if c == ' ' || c == '\n' {
            let ghost out_pre = out@;
            let ghost cur_pre = cur@;
            if has_content {
                out.push(cur);
            }
            cur = String::new();
            has_content = false;
            proof {
                if token_kept(cur_pre) {
                    assert(out@.map_values(|t: String| t@) =~= out_pre.map_values(
                        |t: String| t@,
                    ).push(cur_pre));
                    assert(out_pre.map_values(|t: String| t@) + tokens_from(rest, cur_pre)
                        =~= out@.map_values(|t: String| t@) + tokens_from(
                        rest.drop_first(),
                        Seq::empty(),
                    ));
                } else {
                    assert(tokens_from(rest, cur_pre) == tokens_from(
                        rest.drop_first(),
                        Seq::empty(),
                    ));
                }
                assert(!token_kept(cur@));
            }
        } else {
            let ghost cur_pre = cur@;
            push_char(&mut cur, c);
            let blank = c == '\t' || c == '\r';
            if !blank {
                has_content = true;
            }
            proof {
                assert(tokens_from(rest, cur_pre) == tokens_from(rest.drop_first(), cur@));
                if !blank {
                    assert(!is_blank(cur@.last()));
                    assert(token_kept(cur@));
                } else {
                    if token_kept(cur@) {
                        let w = choose|w: int| 0 <= w < cur@.len() && !is_blank(cur@[w]);
                        if w < cur_pre.len() {
                            assert(cur_pre[w] == cur@[w]);
                            assert(token_kept(cur_pre));
                        } else {
                            assert(cur@[w] == c);
                        }
                    }
                    if token_kept(cur_pre) {
                        let w = choose|w: int| 0 <= w < cur_pre.len() && !is_blank(cur_pre[w]);
                        assert(cur@[w] == cur_pre[w]);
                        assert(token_kept(cur@));
                    }
                    assert(token_kept(cur@) == token_kept(cur_pre));
                }
            }
        }
        i = i + 1;
    }
    proof {
        assert(mappings@.subrange(n as int, n as int) =~= Seq::<char>::empty());
    }
    let ghost out_pre = out@;
    let ghost cur_end = cur@;
    if has_content {
        out.push(cur);
        proof {
            assert(out@.map_values(|t: String| t@) =~= out_pre.map_values(|t: String| t@).push(
                cur_end,
            ));
        }
    }
    out
}

} // verus!
