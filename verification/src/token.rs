//! The tokens of the XML input, and the assertions that tell whether a token
//! is the one the grammar asks for.
use vstd::prelude::*;
use vstd::string::*;

use crate::error::ProcessingError;

verus! {

/// One attribute of a tag: its key and its raw value, as they stand in the
/// document.
#[derive(Debug, Clone, PartialEq, Eq)]
pub struct Attribute {
    pub key: Vec<u8>,
    pub value: Vec<u8>,
}

/// The name and the attributes of a start tag or of a self-closing tag.
#[derive(Debug, Clone, PartialEq, Eq)]
pub struct Tag {
    pub name: Vec<u8>,
    pub attributes: Vec<Attribute>,
}

/// One token of the XML input.
#[derive(Debug, Clone, PartialEq, Eq)]
pub enum Token {
    /// `<name ...>`
    Start(Tag),
    /// `</name>`
    End(Vec<u8>),
    /// `<name ... />`
    Empty(Tag),
    /// Character data between tags, not unescaped.
    Text(Vec<u8>),
    /// The end of the input.
    Eof,
    /// Anything else: a comment, a CDATA section, a declaration, a processing
    /// instruction or a document type.
    Other,
}

/// Mathematical value of an [`Attribute`].
pub struct AttributeView {
    pub key: Seq<u8>,
    pub value: Seq<u8>,
}

/// Mathematical value of a [`Tag`].
pub struct TagView {
    pub name: Seq<u8>,
    pub attributes: Seq<AttributeView>,
}

/// Mathematical value of a [`Token`].
pub enum TokenView {
    Start(TagView),
    End(Seq<u8>),
    Empty(TagView),
    Text(Seq<u8>),
    Eof,
    Other,
}

impl View for Attribute {
    type V = AttributeView;

    open spec fn view(&self) -> AttributeView {
        AttributeView { key: self.key@, value: self.value@ }
    }
}

/// The mathematical values of a run of attributes.
pub open spec fn attribute_views(attributes: Seq<Attribute>) -> Seq<AttributeView> {
    Seq::new(attributes.len(), |i: int| attributes[i]@)
}

impl View for Tag {
    type V = TagView;

    open spec fn view(&self) -> TagView {
        TagView { name: self.name@, attributes: attribute_views(self.attributes@) }
    }
}

impl View for Token {
    type V = TokenView;

    open spec fn view(&self) -> TokenView {
        match self {
            Token::Start(tag) => TokenView::Start(tag@),
            Token::End(name) => TokenView::End(name@),
            Token::Empty(tag) => TokenView::Empty(tag@),
            Token::Text(content) => TokenView::Text(content@),
            Token::Eof => TokenView::Eof,
            Token::Other => TokenView::Other,
        }
    }
}

/// The bytes of an element or attribute name written as a string.
pub open spec fn name_bytes(name: &str) -> Seq<u8> {
    name.spec_bytes()
}

/// The content of the text node that separates two elements: one line feed.
pub open spec fn line_feed() -> Seq<u8> {
    seq![10u8]
}

/// Whether `bytes` spell `name`.
pub fn is_name(bytes: &Vec<u8>, name: &str) -> (same: bool)
    ensures
        same == (bytes@ == name_bytes(name)),
{
    let wanted = name.as_bytes();
    if bytes.len() != wanted.len() {
        return false;
    }
    let mut i: usize = 0;
    while i < bytes.len()
        invariant
            bytes.len() == wanted.len(),
            i <= bytes.len(),
            wanted@ == name_bytes(name),
            forall|j: int| 0 <= j < i ==> bytes@[j] == wanted@[j],
        decreases bytes.len() - i,
    {
        if bytes[i] != wanted[i] {
            return false;
        }
        i += 1;
    }
    assert(bytes@ =~= wanted@);
    true
}

impl TokenView {
    /// The token is the start tag of the element `name`.
    pub open spec fn is_start_of(self, name: &str) -> bool {
        self matches TokenView::Start(tag) && tag.name == name_bytes(name)
    }

    /// The token is the end tag of the element `name`.
    pub open spec fn is_end_of(self, name: &str) -> bool {
        self matches TokenView::End(found) && found == name_bytes(name)
    }

    /// The token is the self-closing tag of the element `name`.
    pub open spec fn is_empty_of(self, name: &str) -> bool {
        self matches TokenView::Empty(tag) && tag.name == name_bytes(name)
    }

    /// The token is a text node holding exactly one line feed.
    pub open spec fn is_new_line(self) -> bool {
        self matches TokenView::Text(content) && content == line_feed()
    }
}

impl Token {
    /// The tag, if the token is a start tag; `ExpectedStart` otherwise.
    pub fn expect_start(&self) -> (found: Result<&Tag, ProcessingError>)
        ensures
            match self@ {
                TokenView::Start(tag) => found matches Ok(t) && t@ == tag,
                _ => found == Err::<&Tag, ProcessingError>(ProcessingError::ExpectedStart),
            },
    {
        match self {
            Token::Start(tag) => Ok(tag),
            _ => Err(ProcessingError::ExpectedStart),
        }
    }

    /// The tag, if the token is the start tag of `name`; `ExpectedStartOf`
    /// otherwise.
    pub fn expect_start_of(&self, name: &'static str) -> (found: Result<&Tag, ProcessingError>)
        ensures
            self@.is_start_of(name) ==> (found matches Ok(t) && self@ == TokenView::Start(t@)),
            !self@.is_start_of(name) ==> found == Err::<&Tag, ProcessingError>(
                ProcessingError::ExpectedStartOf(name),
            ),
    {
        match self {
            Token::Start(tag) => {
                if is_name(&tag.name, name) {
                    Ok(tag)
                } else {
                    Err(ProcessingError::ExpectedStartOf(name))
                }
            },
            _ => Err(ProcessingError::ExpectedStartOf(name)),
        }
    }

    /// Succeeds if the token is the end tag of `name`; `ExpectedEndOf`
    /// otherwise.
    pub fn expect_end_of(&self, name: &'static str) -> (found: Result<(), ProcessingError>)
        ensures
            self@.is_end_of(name) ==> found == Ok::<(), ProcessingError>(()),
            !self@.is_end_of(name) ==> found == Err::<(), ProcessingError>(
                ProcessingError::ExpectedEndOf(name),
            ),
    {
        if self.is_end_of(name) {
            Ok(())
        } else {
            Err(ProcessingError::ExpectedEndOf(name))
        }
    }

    /// The tag, if the token is the self-closing tag of `name`;
    /// `ExpectedEmpty` otherwise.
    pub fn expect_empty(&self, name: &'static str) -> (found: Result<&Tag, ProcessingError>)
        ensures
            self@.is_empty_of(name) ==> (found matches Ok(t) && self@ == TokenView::Empty(t@)),
            !self@.is_empty_of(name) ==> found == Err::<&Tag, ProcessingError>(
                ProcessingError::ExpectedEmpty(name),
            ),
    {
        match self {
            Token::Empty(tag) => {
                if is_name(&tag.name, name) {
                    Ok(tag)
                } else {
                    Err(ProcessingError::ExpectedEmpty(name))
                }
            },
            _ => Err(ProcessingError::ExpectedEmpty(name)),
        }
    }

    /// Succeeds if the token is a text node holding exactly one line feed;
    /// `ExpectedNewline` otherwise.
    pub fn expect_new_line(&self) -> (found: Result<(), ProcessingError>)
        ensures
            self@.is_new_line() ==> found == Ok::<(), ProcessingError>(()),
            !self@.is_new_line() ==> found == Err::<(), ProcessingError>(
                ProcessingError::ExpectedNewline,
            ),
    {
        match self {
            Token::Text(content) => {
                if content.len() == 1 && content[0] == 10u8 {
                    assert(content@ =~= line_feed());
                    Ok(())
                } else {
                    Err(ProcessingError::ExpectedNewline)
                }
            },
            _ => Err(ProcessingError::ExpectedNewline),
        }
    }

    /// The content, if the token is a text node; `ExpectedText` otherwise.
    pub fn expect_text(&self) -> (found: Result<&Vec<u8>, ProcessingError>)
        ensures
            match self@ {
                TokenView::Text(content) => found matches Ok(c) && c@ == content,
                _ => found == Err::<&Vec<u8>, ProcessingError>(ProcessingError::ExpectedText),
            },
    {
        match self {
            Token::Text(content) => Ok(content),
            _ => Err(ProcessingError::ExpectedText),
        }
    }

    /// Succeeds if the token is the end of the input; `ExpectedEof` otherwise.
    pub fn expect_eof(&self) -> (found: Result<(), ProcessingError>)
        ensures
            self@ is Eof ==> found == Ok::<(), ProcessingError>(()),
            !(self@ is Eof) ==> found == Err::<(), ProcessingError>(ProcessingError::ExpectedEof),
    {
        match self {
            Token::Eof => Ok(()),
            _ => Err(ProcessingError::ExpectedEof),
        }
    }

    /// Whether the token is the end tag of `name`.
    pub fn is_end_of(&self, name: &str) -> (yes: bool)
        ensures
            yes == self@.is_end_of(name),
    {
        match self {
            Token::End(found) => is_name(found, name),
            _ => false,
        }
    }

    /// Whether the token is a self-closing tag.
    pub fn is_empty_tag(&self) -> (yes: bool)
        ensures
            yes == (self@ is Empty),
    {
        match self {
            Token::Empty(_) => true,
            _ => false,
        }
    }
}

} // verus!
