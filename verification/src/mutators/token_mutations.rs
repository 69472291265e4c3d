//! Tokens are what AFL calls extras or dictionaries.
//! They may be inserted as part of mutations during fuzzing.
use vstd::prelude::*;
use crate::mutators::MutationResult;
use crate::rands::Rand;

verus! {

/// A set of byte strings, kept in a hash set of the `hashbrown` crate.
#[verifier::external_body]
#[derive(Debug)]
pub struct TokenSet {
    set: hashbrown::HashSet<Vec<u8>>,
}

/// The byte strings a [`TokenSet`] holds.
pub uninterp spec fn token_set_contents(s: TokenSet) -> Set<Seq<u8>>;

/// An empty set (`hashbrown::HashSet::new`).
#[verifier::external_body]
fn token_set_new() -> (r: TokenSet)
    ensures
        token_set_contents(r) == Set::<Seq<u8>>::empty(),
{
    TokenSet { set: hashbrown::HashSet::new() }
}

/// Adds a byte string (`hashbrown::HashSet::insert`); `true` when it was not there yet.
#[verifier::external_body]
fn token_set_insert(s: &mut TokenSet, value: Vec<u8>) -> (r: bool)
    ensures
        r == !token_set_contents(*old(s)).contains(value@),
        token_set_contents(*final(s)) == token_set_contents(*old(s)).insert(value@),
{
    s.set.insert(value)
}

/// The views of a sequence of byte vectors.
pub open spec fn views(s: Seq<Vec<u8>>) -> Seq<Seq<u8>> {
    s.map_values(|v: Vec<u8>| v@)
}

/// The tokens after adding each of `new`, in order, skipping those already present.
pub open spec fn spec_add_tokens(tokens: Seq<Seq<u8>>, new: Seq<Seq<u8>>) -> Seq<Seq<u8>>
    decreases new.len(),
{
    if new.len() == 0 {
        tokens
    } else {
        let prev = spec_add_tokens(tokens, new.drop_last());
        if prev.contains(new.last()) {
            prev
        } else {
            prev.push(new.last())
        }
    }
}

/// Whether the bytes from `head` up to `size` form a well-formed autodict
/// section: a sequence of entries, each a length byte followed by that many
/// bytes, ending exactly at `size`, all within `s`.
pub open spec fn autodict_well_formed(s: Seq<u8>, head: int, size: int) -> bool
    decreases size - head,
{
    if head > size {
        false
    } else if head == size {
        true
    } else {
        &&& 0 <= head < s.len()
        &&& head + 1 + s[head] <= size
        &&& head + 1 + s[head] <= s.len()
        &&& autodict_well_formed(s, head + 1 + s[head], size)
    }
}

/// The tokens of an autodict section, from `head` on; empty entries are skipped.
pub open spec fn autodict_tokens(s: Seq<u8>, head: int, size: int) -> Seq<Seq<u8>>
    decreases size - head,
{
    if head >= size || head < 0 || head >= s.len() || head + 1 + s[head] > size {
        Seq::empty()
    } else {
        let n = s[head] as int;
        let rest = autodict_tokens(s, head + 1 + n, size);
        if n > 0 {
            seq![s.subrange(head + 1, head + 1 + n)] + rest
        } else {
            rest
        }
    }
}

/// Whether the first `size` bytes of `slice` form a well-formed autodict section.
pub fn autodict_is_well_formed(slice: &[u8], size: usize) -> (r: bool)
    ensures
        r == autodict_well_formed(slice@, 0, size as int),
{
    let mut head: usize = 0;
    while head < size
        invariant
            head <= size,
            autodict_well_formed(slice@, 0, size as int) == autodict_well_formed(
                slice@,
                head as int,
                size as int,
            ),
        decreases size - head,
    {
        if head >= slice.len() {
            return false;
        }
        let n = slice[head] as usize;
        if n >= size - head || n >= slice.len() - head {
            return false;
        }
        head = head + 1 + n;
    }
    true
}

/// A list of tokens, each kept once, in the order they were first added.
#[derive(Debug)]
pub struct Tokens {
    tokens_vec: Vec<Vec<u8>>,
    tokens_set: TokenSet,
}

impl Tokens {
    /// The tokens.
    pub closed spec fn spec_tokens(&self) -> Seq<Seq<u8>> {
        views(self.tokens_vec@)
    }

    /// The list holds each token once, and the set holds the same tokens.
    #[verifier::type_invariant]
    closed spec fn inv(&self) -> bool {
        &&& views(self.tokens_vec@).no_duplicates()
        &&& token_set_contents(self.tokens_set) == views(self.tokens_vec@).to_set()
    }

    /// Creates an empty list of tokens (old-skool AFL name: dictionary).
    pub fn new() -> (r: Self)
        ensures
            r.spec_tokens() == Seq::<Seq<u8>>::empty(),
    {
        let v: Vec<Vec<u8>> = Vec::new();
        let set = token_set_new();
        proof {
            assert(views(v@) =~= Seq::<Seq<u8>>::empty());
            assert(views(v@).to_set() =~= Set::<Seq<u8>>::empty());
        }
        Tokens { tokens_vec: v, tokens_set: set }
    }

    /// Adds a token, unless it is already present. Returns `false` if the
    /// token was already present and did not get added.
    pub fn add_token(&mut self, token: &Vec<u8>) -> (r: bool)
        ensures
            r == !old(self).spec_tokens().contains(token@),
            final(self).spec_tokens() == if r {
                old(self).spec_tokens().push(token@)
            } else {
                old(self).spec_tokens()
            },
    {
        let mut current = Tokens::new();
        std::mem::swap(&mut current, self);
        proof {
            use_type_invariant(&current);
        }
        let Tokens { tokens_vec: mut list, tokens_set: mut set } = current;
        let ghost old_views = views(list@);
        let copy1 = clone_bytes(token);
        let fresh = token_set_insert(&mut set, copy1);
        if !fresh {
            proof {
                assert(old_views.to_set().contains(token@));
                assert(token_set_contents(set) =~= old_views.to_set());
            }
            *self = Tokens { tokens_vec: list, tokens_set: set };
            return false;
        }
        let copy2 = clone_bytes(token);
        list.push(copy2);
        proof {
            assert(views(list@) =~= old_views.push(token@));
            assert(!old_views.contains(token@)) by {
                if old_views.contains(token@) {
                    assert(old_views.to_set().contains(token@));
                }
            }
            old_views.lemma_push_to_set_commute(token@);
            assert(views(list@).to_set() =~= old_views.to_set().insert(token@));
            assert forall|i: int, j: int|
                0 <= i < views(list@).len() && 0 <= j < views(list@).len() && i != j implies views(
                list@,
            )[i] != views(list@)[j] by {
                if i == old_views.len() {
                    assert(old_views[j] != token@);
                } else if j == old_views.len() {
                    assert(old_views[i] != token@);
                }
            }
        }
        *self = Tokens { tokens_vec: list, tokens_set: set };
        true
    }

    /// Adds each of the given tokens in order, skipping those already present.
    pub fn add_tokens(&mut self, tokens: &Vec<Vec<u8>>)
        ensures
            final(self).spec_tokens() == spec_add_tokens(old(self).spec_tokens(), views(tokens@)),
    {
        let mut i: usize = 0;
        while i < tokens.len()
            invariant
                0 <= i <= tokens@.len(),
                self.spec_tokens() == spec_add_tokens(
                    old(self).spec_tokens(),
                    views(tokens@).take(i as int),
                ),
            decreases tokens@.len() - i,
        {
            assert(views(tokens@).take(i + 1).drop_last() =~= views(tokens@).take(i as int));
            self.add_token(&tokens[i]);
            i = i + 1;
        }
        assert(views(tokens@).take(tokens@.len() as int) =~= views(tokens@));
    }

    /// Parses an autodict section of `size` bytes: entries made of a length
    /// byte followed by that many bytes. Every non-empty entry is added as a token.
    pub fn parse_autodict(&mut self, slice: &[u8], size: usize)
        requires
            autodict_well_formed(slice@, 0, size as int),
        ensures
            final(self).spec_tokens() == spec_add_tokens(
                old(self).spec_tokens(),
                autodict_tokens(slice@, 0, size as int),
            ),
    {
        let mut head: usize = 0;
        let ghost mut parsed: Seq<Seq<u8>> = Seq::empty();
        while head < size
            invariant
                autodict_well_formed(slice@, head as int, size as int),
                parsed + autodict_tokens(slice@, head as int, size as int) == autodict_tokens(
                    slice@,
                    0,
                    size as int,
                ),
                self.spec_tokens() == spec_add_tokens(old(self).spec_tokens(), parsed),
            decreases size - head,
        {
            let n = slice[head] as usize;
            head = head + 1;
            if n > 0 {
                let token = slice_to_vec(slice, head, head + n);
                proof {
                    let tok = slice@.subrange(head as int, head + n);
                    assert(spec_add_tokens(old(self).spec_tokens(), parsed.push(tok)).len() >= 0);
                    assert(parsed.push(tok).drop_last() =~= parsed);
                    assert(parsed.push(tok) + autodict_tokens(slice@, head + n, size as int) =~= parsed
                        + autodict_tokens(slice@, head - 1, size as int));
                    parsed = parsed.push(tok);
                }
                self.add_token(&token);
                head = head + n;
            }
        }
        proof {
            assert(autodict_tokens(slice@, head as int, size as int) =~= Seq::<Seq<u8>>::empty());
            assert(parsed =~= autodict_tokens(slice@, 0, size as int));
        }
    }

    /// The number of tokens.
    pub fn len(&self) -> (r: usize)
        ensures
            r == self.spec_tokens().len(),
    {
        self.tokens_vec.len()
    }

    /// Whether there is no token.
    pub fn is_empty(&self) -> (r: bool)
        ensures
            r == (self.spec_tokens().len() == 0),
    {
        self.tokens_vec.len() == 0
    }

    /// The tokens.
    pub fn tokens(&self) -> (r: &[Vec<u8>])
        ensures
            views(r@) == self.spec_tokens(),
    {
        self.tokens_vec.as_slice()
    }
}

/// Each token is kept once.
pub proof fn lemma_add_tokens_no_duplicates(tokens: Seq<Seq<u8>>, new: Seq<Seq<u8>>)
    requires
        tokens.no_duplicates(),
    ensures
        spec_add_tokens(tokens, new).no_duplicates(),
        forall|t: Seq<u8>| #[trigger] spec_add_tokens(tokens, new).contains(t) <==> tokens.contains(t)
            || new.contains(t),
    decreases new.len(),
{
    if new.len() > 0 {
        lemma_add_tokens_no_duplicates(tokens, new.drop_last());
        let prev = spec_add_tokens(tokens, new.drop_last());
        assert forall|t: Seq<u8>| #[trigger] new.contains(t) <==> new.drop_last().contains(t) || t
            == new.last() by {
            if new.contains(t) {
                let k = choose|k: int| 0 <= k < new.len() && new[k] == t;
                if k < new.len() - 1 {
                    assert(new.drop_last()[k] == t);
                }
            }
            if new.drop_last().contains(t) {
                let k = choose|k: int| 0 <= k < new.drop_last().len() && new.drop_last()[k] == t;
                assert(new[k] == t);
            }
        }
        if !prev.contains(new.last()) {
            assert forall|i: int, j: int|
                0 <= i < prev.push(new.last()).len() && 0 <= j < prev.push(new.last()).len() && i
                    != j implies prev.push(new.last())[i] != prev.push(new.last())[j] by {
                if i == prev.len() {
                    assert(prev[j] != new.last());
                } else if j == prev.len() {
                    assert(prev[i] != new.last());
                }
            }
            assert forall|t: Seq<u8>| #[trigger] prev.push(new.last()).contains(t) <==> prev.contains(t)
                || t == new.last() by {
                if prev.push(new.last()).contains(t) {
                    let k = choose|k: int| 0 <= k < prev.push(new.last()).len() && prev.push(new.last())[k] == t;
                    if k < prev.len() {
                        assert(prev[k] == t);
                    }
                }
                if prev.contains(t) {
                    let k = choose|k: int| 0 <= k < prev.len() && prev[k] == t;
                    assert(prev.push(new.last())[k] == t);
                }
                if t == new.last() {
                    assert(prev.push(new.last())[prev.len() as int] == t);
                }
            }
        }
    }
}

/// A copy of a byte vector.
fn clone_bytes(v: &Vec<u8>) -> (r: Vec<u8>)
    ensures
        r@ == v@,
{
    let mut r: Vec<u8> = Vec::new();
    let mut i: usize = 0;
    while i < v.len()
        invariant
            0 <= i <= v@.len(),
            r@ == v@.take(i as int),
        decreases v@.len() - i,
    {
        r.push(v[i]);
        i = i + 1;
        assert(r@ =~= v@.take(i as int));
    }
    assert(v@.take(v@.len() as int) =~= v@);
    r
}

/// A copy of the bytes `from..to` of a slice.
fn slice_to_vec(s: &[u8], from: usize, to: usize) -> (r: Vec<u8>)
    requires
        from <= to <= s@.len(),
    ensures
        r@ == s@.subrange(from as int, to as int),
{
    let mut r: Vec<u8> = Vec::new();
    let mut i: usize = from;
    while i < to
        invariant
            from <= i <= to,
            to <= s@.len(),
            r@ == s@.subrange(from as int, i as int),
        decreases to - i,
    {
        r.push(s[i]);
        i = i + 1;
        assert(r@ =~= s@.subrange(from as int, i as int));
    }
    r
}

/// The input after inserting the first `len` bytes of `token` at `off`.
pub open spec fn spec_inserted(input: Seq<u8>, token: Seq<u8>, off: int, len: int) -> Seq<u8> {
    input.take(off) + token.take(len) + input.skip(off)
}

/// The input after overwriting it with the first `len` bytes of `token` from `off` on.
pub open spec fn spec_replaced(input: Seq<u8>, token: Seq<u8>, off: int, len: int) -> Seq<u8> {
    input.take(off) + token.take(len) + input.skip(off + len)
}

/// The number of bytes of a token of `token_len` bytes that can be inserted
/// into an input of `size` bytes without exceeding `max_size`, or `None`
/// when the input is already at or over the limit and the token would exceed it.
pub open spec fn spec_insert_len(size: int, token_len: int, max_size: int) -> Option<int> {
    if size + token_len > max_size {
        if max_size > size {
            Some(max_size - size)
        } else {
            None
        }
    } else {
        Some(token_len)
    }
}

/// Inserts a random token at a random position of the input.
#[derive(Debug, Default)]
pub struct TokenInsert;

impl TokenInsert {
    /// Create a [`TokenInsert`] mutation.
    pub fn new() -> (r: Self) {
        TokenInsert
    }

    /// Inserts `token` at `off`, shortened so that the input does not grow
    /// beyond `max_size`; skipped when the input is already too large.
    pub fn insert_token_at(input: &mut Vec<u8>, token: &Vec<u8>, off: usize, max_size: usize) -> (r: MutationResult)
        requires
            off <= old(input)@.len(),
        ensures
            match spec_insert_len(old(input)@.len() as int, token@.len() as int, max_size as int) {
                Some(len) => r == MutationResult::Mutated && final(input)@ == spec_inserted(
                    old(input)@,
                    token@,
                    off as int,
                    len,
                ),
                None => r == MutationResult::Skipped && final(input)@ == old(input)@,
            },
    {
        let size = input.len();
        let mut len = token.len();
        if len > max_size || size > max_size - len {
            if max_size > size {
                len = max_size - size;
            } else {
                return MutationResult::Skipped;
            }
        }
        let mut out: Vec<u8> = Vec::new();
        let mut i: usize = 0;
        while i < off
            invariant
                0 <= i <= off,
                off <= input@.len(),
                out@ == input@.take(i as int),
            decreases off - i,
        {
            out.push(input[i]);
            i = i + 1;
            assert(out@ =~= input@.take(i as int));
        }
        let mut j: usize = 0;
        while j < len
            invariant
                0 <= j <= len,
                len <= token@.len(),
                out@ == input@.take(off as int) + token@.take(j as int),
            decreases len - j,
        {
            out.push(token[j]);
            j = j + 1;
            assert(out@ =~= input@.take(off as int) + token@.take(j as int));
        }
        let mut k: usize = off;
        while k < size
            invariant
                off <= k <= size,
                size == input@.len(),
                out@ == input@.take(off as int) + token@.take(len as int) + input@.subrange(
                    off as int,
                    k as int,
                ),
            decreases size - k,
        {
            out.push(input[k]);
            k = k + 1;
            assert(out@ =~= input@.take(off as int) + token@.take(len as int) + input@.subrange(
                off as int,
                k as int,
            ));
        }
        assert(input@.subrange(off as int, size as int) =~= input@.skip(off as int));
        *input = out;
        MutationResult::Mutated
    }

    /// Inserts a random token of `tokens` at a random position of `input`,
    /// keeping the input within `max_size`: the generator picks the token
    /// first, then the position, up to the end of the input. Skipped when
    /// there is no token, or when the input is too large already.
    pub fn mutate<R: Rand>(&mut self, input: &mut Vec<u8>, rand: &mut R, tokens: &Tokens, max_size: usize) -> (r: MutationResult)
        ensures
            tokens.spec_tokens().len() == 0 ==> r == MutationResult::Skipped && final(input)@ == old(
                input,
            )@ && *final(rand) == *old(rand),
            tokens.spec_tokens().len() > 0 ==> ({
                let n = tokens.spec_tokens().len() as usize;
                let token = tokens.spec_tokens()[old(rand).spec_below(n) as int];
                let rand1 = old(rand).spec_after_below(n);
                let positions = spec_saturating_succ(old(input)@.len() as usize);
                let off = rand1.spec_below(positions);
                &&& *final(rand) == rand1.spec_after_below(positions)
                &&& match spec_insert_len(
                    old(input)@.len() as int,
                    token.len() as int,
                    max_size as int,
                ) {
                    Some(len) => r == MutationResult::Mutated && final(input)@ == spec_inserted(
                        old(input)@,
                        token,
                        off as int,
                        len,
                    ),
                    None => r == MutationResult::Skipped && final(input)@ == old(input)@,
                }
            }),
    {
        let tokens_len = tokens.len();
        if tokens_len == 0 {
            return MutationResult::Skipped;
        }
        let token_idx = rand.below(tokens_len);
        let size = input.len();
        let off = rand.below(size.saturating_add(1));
        let all = tokens.tokens();
        let token = &all[token_idx];
        Self::insert_token_at(input, token, off, max_size)
    }
}

/// `n + 1`, or `n` when that does not fit.
pub open spec fn spec_saturating_succ(n: usize) -> usize {
    if n == usize::MAX {
        n
    } else {
        (n + 1) as usize
    }
}

/// The input overwritten from `off` on with `token`, cut at the end of the input.
pub open spec fn spec_overwritten(input: Seq<u8>, token: Seq<u8>, off: int) -> Seq<u8> {
    spec_replaced(
        input,
        token,
        off,
        if off + token.len() > input.len() {
            input.len() - off
        } else {
            token.len() as int
        },
    )
}

/// Replaces a random part of the input with one of the tokens.
/// In AFL terms, this is the dictionary mutation.
#[derive(Debug, Default)]
pub struct TokenReplace;

impl TokenReplace {
    /// Creates a new [`TokenReplace`].
    pub fn new() -> (r: Self) {
        TokenReplace
    }

    /// Overwrites the input from `off` on with the token, cut at the end of the input.
    pub fn replace_token_at(input: &mut Vec<u8>, token: &Vec<u8>, off: usize) -> (r: MutationResult)
        requires
            off < old(input)@.len(),
        ensures
            r == MutationResult::Mutated,
            final(input)@ == spec_overwritten(old(input)@, token@, off as int),
            final(input)@.len() == old(input)@.len(),
    {
        let size = input.len();
        let mut len = token.len();
        if len > size - off {
            len = size - off;
        }
        let mut j: usize = 0;
        while j < len
            invariant
                0 <= j <= len,
                len <= token@.len(),
                off + len <= size,
                size == input@.len(),
                input@.len() == old(input)@.len(),
                forall|i: int| 0 <= i < off ==> #[trigger] input@[i] == old(input)@[i],
                forall|i: int| off <= i < off + j ==> #[trigger] input@[i] == token@[i - off],
                forall|i: int| off + j <= i < size ==> #[trigger] input@[i] == old(input)@[i],
            decreases len - j,
        {
            input.set(off + j, token[j]);
            j = j + 1;
        }
        assert(input@ =~= spec_replaced(old(input)@, token@, off as int, len as int));
        MutationResult::Mutated
    }

    /// Overwrites a random part of `input` with a random token of `tokens`:
    /// the generator picks the position first, then the token. Skipped when
    /// the input is empty or there is no token.
    pub fn mutate<R: Rand>(&mut self, input: &mut Vec<u8>, rand: &mut R, tokens: &Tokens) -> (r: MutationResult)
        ensures
            (old(input)@.len() == 0 || tokens.spec_tokens().len() == 0) <==> r
                == MutationResult::Skipped,
            r == MutationResult::Skipped ==> final(input)@ == old(input)@,
            final(input)@.len() == old(input)@.len(),
            old(input)@.len() == 0 ==> *final(rand) == *old(rand),
            old(input)@.len() > 0 ==> ({
                let size = old(input)@.len() as usize;
                let off = old(rand).spec_below(size);
                let rand1 = old(rand).spec_after_below(size);
                let n = tokens.spec_tokens().len() as usize;
                &&& n == 0 ==> *final(rand) == rand1
                &&& n > 0 ==> *final(rand) == rand1.spec_after_below(n) && final(input)@
                    == spec_overwritten(
                    old(input)@,
                    tokens.spec_tokens()[rand1.spec_below(n) as int],
                    off as int,
                )
            }),
    {
        let size = input.len();
        if size == 0 {
            return MutationResult::Skipped;
        }
        let off = rand.below(size);
        let tokens_len = tokens.len();
        if tokens_len == 0 {
            return MutationResult::Skipped;
        }
        let token_idx = rand.below(tokens_len);
        let all = tokens.tokens();
        let token = &all[token_idx];
        Self::replace_token_at(input, token, off)
    }
}

} // verus!
