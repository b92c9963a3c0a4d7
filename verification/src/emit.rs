use crate::entrait_fn::{SelfTy, TraitVisibility, resolved_visibility, self_ty_of};
use crate::output::GeneratedArtifact;
use crate::render::{artifact_text, visibility_text};
use crate::text::Text;
use crate::token_util::{
    append_stream, empty_stream, lex, lexes_to, stream_backend, stream_lexemes,
};
use vstd::prelude::*;

verus! {

/// Whether `lexemes` are what is made of `text`: none of an empty text,
/// and else what a lexer makes of it.
pub open spec fn made_of(text: Text, lexemes: Seq<Text>) -> bool {
    if text.len() == 0 {
        lexemes == Seq::<Text>::empty()
    } else {
        lexes_to(text, lexemes)
    }
}

/// Whether `outcome` is what comes of making tokens of `text`: a stream
/// that holds what is made of the text, or nothing, where the lexer
/// refused it. An empty text is never refused.
pub open spec fn made(text: Text, outcome: Option<proc_macro2::TokenStream>) -> bool {
    match outcome {
        Some(stream) => made_of(text, stream_lexemes(stream)),
        None => text.len() > 0,
    }
}

/// Makes the tokens of `text`, as a stream of their own. For an empty text
/// the lexer is not asked: the stream holds nothing.
pub fn lex_text(text: &str) -> (r: Option<proc_macro2::TokenStream>)
    ensures
        made(text@, r),
{
    if text.is_empty() {
        Some(empty_stream())
    } else {
        lex(text)
    }
}

/// Writes what was made of a text behind what `stream` holds, and says
/// whether there was anything to write: the tokens of `lexed` are appended
/// where there are any, and nothing is where there are none. Both streams
/// have to be held by one implementation.
pub fn append_lexed(stream: &mut proc_macro2::TokenStream, lexed: Option<proc_macro2::TokenStream>) -> (done: bool)
    requires
        lexed is Some ==> stream_backend(lexed->Some_0) == stream_backend(*old(stream)),
    ensures
        done == lexed is Some,
        stream_lexemes(*final(stream)) == stream_lexemes(*old(stream)) + (match lexed {
            Some(tokens) => stream_lexemes(tokens),
            None => Seq::empty(),
        }),
        stream_backend(*final(stream)) == stream_backend(*old(stream)),
{
    match lexed {
        Some(tokens) => {
            append_stream(stream, &tokens);
            true
        },
        None => {
            proof {
                assert(stream_lexemes(*stream) + Seq::<Text>::empty() =~= stream_lexemes(*stream));
            }
            false
        },
    }
}

/// The lexemes of the three declarations, one behind the other; the
/// statement for the scope is left out where there is none.
pub open spec fn assembled(
    trait_def: Seq<Text>,
    impl_block: Seq<Text>,
    reexport: Option<Seq<Text>>,
) -> Seq<Text> {
    trait_def + impl_block + (match reexport {
        Some(tokens) => tokens,
        None => Seq::empty(),
    })
}

/// The lexemes of an optional stream.
pub open spec fn opt_lexemes(stream: Option<proc_macro2::TokenStream>) -> Option<Seq<Text>> {
    match stream {
        Some(s) => Some(stream_lexemes(s)),
        None => None,
    }
}

/// Puts the tokens of interface, implementation and statement into one
/// stream, in this order. The streams have to be held by one
/// implementation.
pub fn assemble(
    trait_def: proc_macro2::TokenStream,
    impl_block: proc_macro2::TokenStream,
    reexport: Option<proc_macro2::TokenStream>,
) -> (stream: proc_macro2::TokenStream)
    requires
        stream_backend(impl_block) == stream_backend(trait_def),
        reexport is Some ==> stream_backend(reexport->Some_0) == stream_backend(trait_def),
    ensures
        stream_lexemes(stream) == assembled(
            stream_lexemes(trait_def),
            stream_lexemes(impl_block),
            opt_lexemes(reexport),
        ),
        stream_backend(stream) == stream_backend(trait_def),
{
    let mut stream = trait_def;
    append_stream(&mut stream, &impl_block);
    match reexport {
        Some(tokens) => {
            append_stream(&mut stream, &tokens);
        },
        None => {
            proof {
                assert(stream_lexemes(stream) + Seq::<Text>::empty() =~= stream_lexemes(stream));
            }
        },
    }
    stream
}

impl GeneratedArtifact {
    /// The artifact as one token stream: what the lexer makes of the text
    /// of its declarations, one behind the other; nothing where the lexer
    /// refuses the text.
    pub fn to_token_stream(&self) -> (r: Option<proc_macro2::TokenStream>)
        ensures
            made(artifact_text(self@), r),
    {
        let text = self.render();
        lex_text(text.as_str())
    }
}

impl<'a> TraitVisibility<'a> {
    /// The resolved access level as tokens, in a stream of their own: what
    /// is made of the access level as it is written. The stream holds
    /// nothing for an access level that is not written out.
    pub fn to_tokens(&self) -> (r: Option<proc_macro2::TokenStream>)
        ensures
            made(visibility_text(resolved_visibility(self.attr@.trait_visibility, *self.mode)), r),
    {
        let text = self.resolve().render();
        lex_text(text.as_str())
    }
}

impl<'g> SelfTy<'g> {
    /// The type that the interface is implemented for as tokens, in a
    /// stream of their own: what is made of the type as it is written.
    pub fn to_tokens(&self) -> (r: Option<proc_macro2::TokenStream>)
        ensures
            made(self_ty_of(self.0@, self.1@), r),
    {
        let text = self.resolve();
        lex_text(text.as_str())
    }
}

} // verus!
