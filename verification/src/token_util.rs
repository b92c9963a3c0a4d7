use vstd::prelude::*;

verus! {

#[verifier::external_type_specification]
#[verifier::external_body]
pub struct ExTokenStream(proc_macro2::TokenStream);

/// The lexemes that a token stream holds, in order, each as its text: an
/// identifier as its name, a punctuation mark as its character, a literal
/// as it is written. A delimited group contributes its opening delimiter,
/// the lexemes of its contents and its closing delimiter.
pub uninterp spec fn stream_lexemes(stream: proc_macro2::TokenStream) -> Seq<Seq<char>>;

/// Which of the crate's two implementations holds a stream: the compiler,
/// or the crate's own. Which one makes a new stream depends on the state
/// of the process at that moment, so nothing is known of it for a stream
/// that was just made.
pub uninterp spec fn stream_backend(stream: proc_macro2::TokenStream) -> bool;

/// `quote::ToTokens::to_tokens` of a `proc_macro2::TokenStream`, which
/// extends `stream` by a copy of `tail`: the tokens of `tail` are appended,
/// in their order, behind those that `stream` holds, and `stream` stays
/// with the implementation that holds it. The call panics where the two
/// streams are held by different implementations, so both must be held by
/// one.
#[verifier::external_body]
pub(crate) fn append_stream(stream: &mut proc_macro2::TokenStream, tail: &proc_macro2::TokenStream)
    requires
        stream_backend(*old(stream)) == stream_backend(*tail),
    ensures
        stream_lexemes(*final(stream)) == stream_lexemes(*old(stream)) + stream_lexemes(*tail),
        stream_backend(*final(stream)) == stream_backend(*old(stream)),
{
    quote::ToTokens::to_tokens(tail, stream);
}

/// `proc_macro2::TokenStream::new`: a stream that holds no token.
#[verifier::external_body]
pub(crate) fn empty_stream() -> (stream: proc_macro2::TokenStream)
    ensures
        stream_lexemes(stream) == Seq::<Seq<char>>::empty(),
{
    proc_macro2::TokenStream::new()
}

/// Whether a lexer of the crate makes of `text` a stream that holds
/// `lexemes`. This is a relation and no function: the crate has two
/// lexers, and nothing here says that they agree.
pub uninterp spec fn lexes_to(text: Seq<char>, lexemes: Seq<Seq<char>>) -> bool;

/// `FromStr` of `proc_macro2::TokenStream`: the stream that the lexer makes
/// of `text`, and `None` where it gives an error. A stream that comes back
/// holds lexemes that the lexer made of this text; which texts are taken,
/// and what they give, is not claimed.
#[verifier::external_body]
pub(crate) fn lex(text: &str) -> (r: Option<proc_macro2::TokenStream>)
    ensures
        r is Some ==> lexes_to(text@, stream_lexemes(r->Some_0)),
{
    match <proc_macro2::TokenStream as core::str::FromStr>::from_str(text) {
        Ok(stream) => Some(stream),
        Err(_) => None,
    }
}

/// A token that emits nothing.
pub struct EmptyToken;

impl EmptyToken {
    /// Leaves `stream` as it is.
    pub fn to_tokens(&self, stream: &mut proc_macro2::TokenStream)
        ensures
            *final(stream) == *old(stream),
    {
    }
}

/// Writes a punctuated list into a token stream: `start` before the first
/// item, `punct` between two items, and `end` behind the last one. A list
/// without items writes nothing at all.
///
/// The list owns the stream while it is written and hands it back when it
/// is finished.
pub struct Punctuator {
    stream: proc_macro2::TokenStream,
    position: usize,
    start: proc_macro2::TokenStream,
    punct: proc_macro2::TokenStream,
    end: proc_macro2::TokenStream,
}

/// The lexemes of a punctuated list of `items`, without its closing `end`.
pub open spec fn punctuated_open(
    start: Seq<Seq<char>>,
    punct: Seq<Seq<char>>,
    items: Seq<Seq<Seq<char>>>,
) -> Seq<Seq<char>>
    decreases items.len(),
{
    if items.len() == 0 {
        Seq::empty()
    } else if items.len() == 1 {
        start + items[0]
    } else {
        punctuated_open(start, punct, items.drop_last()) + punct + items.last()
    }
}

/// The lexemes of a whole punctuated list: nothing for no items, else
/// `start`, the items with `punct` between them, and `end`.
pub open spec fn punctuated(
    start: Seq<Seq<char>>,
    punct: Seq<Seq<char>>,
    end: Seq<Seq<char>>,
    items: Seq<Seq<Seq<char>>>,
) -> Seq<Seq<char>> {
    if items.len() == 0 {
        Seq::empty()
    } else {
        punctuated_open(start, punct, items) + end
    }
}

/// What stands in front of the next item of a list that has `count` items:
/// `start` in front of the first, `punct` in front of any other.
pub open spec fn separator(start: Seq<Seq<char>>, punct: Seq<Seq<char>>, count: nat) -> Seq<
    Seq<char>,
> {
    if count == 0 {
        start
    } else {
        punct
    }
}

/// One more item makes an open list longer by its separator and the item.
pub proof fn lemma_punctuated_push(
    start: Seq<Seq<char>>,
    punct: Seq<Seq<char>>,
    items: Seq<Seq<Seq<char>>>,
    item: Seq<Seq<char>>,
)
    ensures
        punctuated_open(start, punct, items.push(item)) == punctuated_open(start, punct, items)
            + separator(start, punct, items.len()) + item,
{
    assert(items.push(item).drop_last() =~= items);
    assert(punctuated_open(start, punct, items.push(item)) =~= punctuated_open(start, punct, items)
        + separator(start, punct, items.len()) + item);
}

impl Punctuator {
    /// The lexemes that the stream holds by now.
    pub closed spec fn written(&self) -> Seq<Seq<char>> {
        stream_lexemes(self.stream)
    }

    /// The number of items pushed so far.
    pub closed spec fn count(&self) -> nat {
        self.position as nat
    }

    /// The lexemes written in front of the first item.
    pub closed spec fn start(&self) -> Seq<Seq<char>> {
        stream_lexemes(self.start)
    }

    /// The lexemes written between two items.
    pub closed spec fn punct(&self) -> Seq<Seq<char>> {
        stream_lexemes(self.punct)
    }

    /// The lexemes written behind the last item.
    pub closed spec fn end(&self) -> Seq<Seq<char>> {
        stream_lexemes(self.end)
    }

    /// The implementation that holds the stream of the list.
    pub closed spec fn backend(&self) -> bool {
        stream_backend(self.stream)
    }

    /// Whether the list can be written on: what it writes of its own is
    /// held by the implementation that holds its stream.
    pub closed spec fn wf(&self) -> bool {
        &&& stream_backend(self.start) == stream_backend(self.stream)
        &&& stream_backend(self.punct) == stream_backend(self.stream)
        &&& stream_backend(self.end) == stream_backend(self.stream)
    }

    /// Whether `other` is a list with the same `start`, `punct` and `end`,
    /// held by the same implementation.
    pub open spec fn same_marks(&self, other: &Punctuator) -> bool {
        self.start() == other.start() && self.punct() == other.punct() && self.end()
            == other.end() && self.backend() == other.backend()
    }

    /// Begins a list behind what `stream` holds.
    pub fn new(
        stream: proc_macro2::TokenStream,
        start: proc_macro2::TokenStream,
        punct: proc_macro2::TokenStream,
        end: proc_macro2::TokenStream,
    ) -> (p: Self)
        requires
            stream_backend(start) == stream_backend(stream),
            stream_backend(punct) == stream_backend(stream),
            stream_backend(end) == stream_backend(stream),
        ensures
            p.wf(),
            p.written() == stream_lexemes(stream),
            p.count() == 0,
            p.start() == stream_lexemes(start),
            p.punct() == stream_lexemes(punct),
            p.end() == stream_lexemes(end),
            p.backend() == stream_backend(stream),
    {
        Punctuator { stream, position: 0, start, punct, end }
    }

    /// Writes what stands in front of the next item.
    fn sep(&mut self)
        requires
            old(self).wf(),
            old(self).count() < usize::MAX,
        ensures
            final(self).wf(),
            final(self).written() == old(self).written() + separator(
                old(self).start(),
                old(self).punct(),
                old(self).count(),
            ),
            final(self).count() == old(self).count() + 1,
            final(self).same_marks(old(self)),
    {
        if self.position == 0 {
            append_stream(&mut self.stream, &self.start);
        } else {
            append_stream(&mut self.stream, &self.punct);
        }
        self.position += 1;
    }

    /// Pushes `tokens` as the next item.
    pub fn push(&mut self, tokens: &proc_macro2::TokenStream)
        requires
            old(self).wf(),
            old(self).count() < usize::MAX,
            stream_backend(*tokens) == old(self).backend(),
        ensures
            final(self).wf(),
            final(self).written() == old(self).written() + separator(
                old(self).start(),
                old(self).punct(),
                old(self).count(),
            ) + stream_lexemes(*tokens),
            final(self).count() == old(self).count() + 1,
            final(self).same_marks(old(self)),
    {
        self.sep();
        append_stream(&mut self.stream, tokens);
    }

    /// Lets `f` write the next item: `f` gets the stream with the separator
    /// written, and the stream is what `f` leaves of it. `f` has to leave
    /// the stream with the implementation that holds it.
    pub fn push_fn<F>(&mut self, f: F) where F: FnOnce(&mut proc_macro2::TokenStream)
        requires
            old(self).wf(),
            old(self).count() < usize::MAX,
            forall|s: &mut proc_macro2::TokenStream|
                stream_lexemes(*s) == old(self).written() + separator(
                    old(self).start(),
                    old(self).punct(),
                    old(self).count(),
                ) && stream_backend(*s) == old(self).backend() ==> #[trigger] f.requires((s,)),
            forall|s: &mut proc_macro2::TokenStream| #[trigger]
                f.ensures((s,), ()) ==> stream_backend(*final(s)) == stream_backend(*s),
        ensures
            final(self).wf(),
            exists|s: &mut proc_macro2::TokenStream| #[trigger]
                f.ensures((s,), ()) && stream_lexemes(*s) == old(self).written() + separator(
                    old(self).start(),
                    old(self).punct(),
                    old(self).count(),
                ) && stream_lexemes(*final(s)) == final(self).written(),
            final(self).count() == old(self).count() + 1,
            final(self).same_marks(old(self)),
    {
        self.sep();
        f(&mut self.stream);
    }

    /// Closes the list, with `end` where it has an item, and hands the
    /// stream back.
    pub fn finish(self) -> (stream: proc_macro2::TokenStream)
        requires
            self.wf(),
        ensures
            stream_lexemes(stream) == self.written() + (if self.count() > 0 {
                self.end()
            } else {
                Seq::empty()
            }),
            stream_backend(stream) == self.backend(),
    {
        let mut stream = self.stream;
        if self.position > 0 {
            append_stream(&mut stream, &self.end);
        } else {
            proof {
                assert(stream_lexemes(stream) + Seq::<Seq<char>>::empty() =~= stream_lexemes(
                    stream,
                ));
            }
        }
        stream
    }
}

/// Whether every stream of the list is held by the implementation
/// `backend`.
pub open spec fn all_held_by(items: Seq<proc_macro2::TokenStream>, backend: bool) -> bool {
    forall|i: int| 0 <= i < items.len() ==> stream_backend(#[trigger] items[i]) == backend
}

/// Writes `items` as one punctuated list behind what `stream` holds.
pub fn write_punctuated(
    stream: proc_macro2::TokenStream,
    start: proc_macro2::TokenStream,
    punct: proc_macro2::TokenStream,
    end: proc_macro2::TokenStream,
    items: &Vec<proc_macro2::TokenStream>,
) -> (out: proc_macro2::TokenStream)
    requires
        stream_backend(start) == stream_backend(stream),
        stream_backend(punct) == stream_backend(stream),
        stream_backend(end) == stream_backend(stream),
        all_held_by(items@, stream_backend(stream)),
    ensures
        stream_backend(out) == stream_backend(stream),
        stream_lexemes(out) == stream_lexemes(stream) + punctuated(
            stream_lexemes(start),
            stream_lexemes(punct),
            stream_lexemes(end),
            items@.map_values(|item: proc_macro2::TokenStream| stream_lexemes(item)),
        ),
{
    let ghost all = items@.map_values(|item: proc_macro2::TokenStream| stream_lexemes(item));
    let mut list = Punctuator::new(stream, start, punct, end);
    let mut i: usize = 0;
    proof {
        assert(list.written() =~= stream_lexemes(stream) + punctuated_open(
            list.start(),
            list.punct(),
            all.take(0),
        ));
    }
    while i < items.len()
        invariant
            i <= items.len(),
            all == items@.map_values(|item: proc_macro2::TokenStream| stream_lexemes(item)),
            list.count() == i,
            list.wf(),
            list.backend() == stream_backend(stream),
            all_held_by(items@, stream_backend(stream)),
            list.start() == stream_lexemes(start),
            list.punct() == stream_lexemes(punct),
            list.end() == stream_lexemes(end),
            list.written() == stream_lexemes(stream) + punctuated_open(
                list.start(),
                list.punct(),
                all.take(i as int),
            ),
        decreases items.len() - i,
    {
        proof {
            lemma_punctuated_push(list.start(), list.punct(), all.take(i as int), all[i as int]);
            assert(all.take(i as int).push(all[i as int]) =~= all.take(i + 1));
        }
        list.push(&items[i]);
        i += 1;
    }
    proof {
        assert(all.take(items.len() as int) =~= all);
    }
    list.finish()
}

} // verus!
