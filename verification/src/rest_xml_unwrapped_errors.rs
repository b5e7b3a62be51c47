//! Errors that a service sends as an XML document whose root is the error
//! itself.

use aws_smithy_xml::decode::{try_data, Document, XmlDecodeError};
use vstd::prelude::*;

verus! {

#[verifier::external_type_specification]
#[verifier::external_body]
pub struct ExXmlDecodeError(XmlDecodeError);

/// An element directly below the root of a document.
#[derive(Debug)]
pub struct XmlChild {
    /// The local part of the element's name.
    pub name: String,
    /// The text that the element holds, or why it could not be read as text.
    pub data: Result<String, XmlDecodeError>,
}

/// Why a body is not the error document that was expected.
#[derive(Debug)]
pub enum XmlError {
    /// The body could not be decoded.
    Decode(XmlDecodeError),
    /// The root of the document is not an `Error` element.
    ExpectedErrorAsRoot,
}

/// What an error document says about the error.
#[derive(Debug, Clone, PartialEq, Eq)]
pub struct ErrorMetadata {
    /// The error code.
    pub code: Option<String>,
    /// The error message.
    pub message: Option<String>,
}

/// The local name of the root element of the document that `body` holds,
/// and nothing where `body` holds no document with a root.
pub uninterp spec fn xml_root(body: Seq<u8>) -> Option<Seq<char>>;

/// The elements directly below the root of the document that `body` holds,
/// in document order, each with its local name and with its text where it
/// can be read as text; nothing where `body` holds no document with a root.
pub uninterp spec fn xml_children(body: Seq<u8>) -> Option<Seq<(Seq<char>, Option<Seq<char>>)>>;

/// A child as its name and its text.
pub open spec fn child_view(child: XmlChild) -> (Seq<char>, Option<Seq<char>>) {
    (
        child.name@,
        match child.data {
            Ok(text) => Some(text@),
            Err(_) => None,
        },
    )
}

/// `Document::try_from`, `Document::root_element` and `StartEl::local`: the
/// local name of the root element. The decoder borrows from the document, so
/// the three calls stand together. The outcome depends on the body alone.
#[verifier::external_body]
fn root_name(body: &[u8]) -> (name: Result<String, XmlDecodeError>)
    ensures
        name.is_ok() == xml_root(body@).is_some(),
        name matches Ok(local) ==> local@ == xml_root(body@).unwrap(),
{
    let mut doc = Document::try_from(body)?;
    let scoped = doc.root_element()?;
    Ok(scoped.start_el().local().to_string())
}

/// `Document::try_from`, `Document::root_element`, `ScopedDecoder::next_tag`,
/// `StartEl::local` and `try_data`: every element directly below the root,
/// in document order, with its local name and the outcome of reading its
/// text. The decoders borrow from one another, so the calls stand together.
/// The outcome depends on the body alone.
#[verifier::external_body]
fn root_children(body: &[u8]) -> (children: Result<Vec<XmlChild>, XmlDecodeError>)
    ensures
        children.is_ok() == xml_children(body@).is_some(),
        children matches Ok(found) ==> child_views(found@) == xml_children(body@).unwrap(),
{
    let mut doc = Document::try_from(body)?;
    let mut root = doc.root_element()?;
    let mut children = Vec::new();
    while let Some(mut tag) = root.next_tag() {
        let name = tag.start_el().local().to_string();
        let data = try_data(&mut tag).map(|text| text.into_owned());
        children.push(XmlChild { name, data });
    }
    Ok(children)
}

fn is_named(name: &String, expected: &str) -> (same: bool)
    ensures
        same == (name@ == expected@),
{
    *name == String::from_str(expected)
}

/// Whether the body is an error document: a document whose root is an
/// `Error` element.
pub fn body_is_error(body: &[u8]) -> (is_error: Result<bool, XmlError>)
    ensures
        match xml_root(body@) {
            Some(name) => is_error matches Ok(found) && found == (name == "Error"@),
            None => is_error matches Err(XmlError::Decode(_)),
        },
{
    match root_name(body) {
        Ok(name) => Ok(is_named(&name, "Error")),
        Err(error) => Err(XmlError::Decode(error)),
    }
}

/// The elements of an error document: the children of its root, which has
/// to be an `Error` element.
pub fn error_scope(body: &[u8]) -> (scope: Result<Vec<XmlChild>, XmlError>)
    ensures
        match xml_root(body@) {
            None => scope matches Err(XmlError::Decode(_)),
            Some(name) => if name != "Error"@ {
                scope matches Err(XmlError::ExpectedErrorAsRoot)
            } else {
                match xml_children(body@) {
                    Some(children) => scope matches Ok(found) && child_views(found@) == children,
                    None => scope matches Err(XmlError::Decode(_)),
                }
            },
        },
{
    match body_is_error(body) {
        Err(error) => Err(error),
        Ok(false) => Err(XmlError::ExpectedErrorAsRoot),
        Ok(true) => match root_children(body) {
            Ok(children) => Ok(children),
            Err(error) => Err(XmlError::Decode(error)),
        },
    }
}

/// The children of a root, each as its name and its text.
pub open spec fn child_views(children: Seq<XmlChild>) -> Seq<(Seq<char>, Option<Seq<char>>)> {
    children.map_values(|child: XmlChild| child_view(child))
}

/// An optional text as the characters it holds.
pub open spec fn text_view(text: Option<String>) -> Option<Seq<char>> {
    match text {
        Some(text) => Some(text@),
        None => None,
    }
}

/// Whether an element sets the code or the message of an error.
pub open spec fn is_field(child: (Seq<char>, Option<Seq<char>>)) -> bool {
    child.0 == "Code"@ || child.0 == "Message"@
}

/// Whether one of `children` sets the code or the message but holds no
/// readable text.
pub open spec fn has_unreadable_field(children: Seq<(Seq<char>, Option<Seq<char>>)>) -> bool {
    exists|i: int| 0 <= i < children.len() && is_field(#[trigger] children[i]) && children[i].1 is None
}

/// The text of the last of `children` called `name`, if there is one.
pub open spec fn last_text(children: Seq<(Seq<char>, Option<Seq<char>>)>, name: Seq<char>) -> Option<
    Seq<char>,
>
    decreases children.len(),
{
    if children.len() == 0 {
        None
    } else if children.last().0 == name && children.last().1 is Some {
        children.last().1
    } else {
        last_text(children.drop_last(), name)
    }
}

/// What the children of a root say about an error: nothing where one of
/// them sets the code or the message without readable text, else for the
/// code and for the message the text of the last element of that name.
pub open spec fn metadata_of(children: Seq<(Seq<char>, Option<Seq<char>>)>) -> Option<
    (Option<Seq<char>>, Option<Seq<char>>),
> {
    if has_unreadable_field(children) {
        None
    } else {
        Some((last_text(children, "Code"@), last_text(children, "Message"@)))
    }
}

/// Whether `metadata` is what `expected` describes.
pub open spec fn is_metadata(
    metadata: Result<ErrorMetadata, XmlError>,
    expected: Option<(Option<Seq<char>>, Option<Seq<char>>)>,
) -> bool {
    match expected {
        Some((code, message)) => metadata matches Ok(found) && text_view(found.code) == code
            && text_view(found.message) == message,
        None => metadata matches Err(XmlError::Decode(_)),
    }
}

/// The code and the message that the elements of an error document state:
/// for each, the text of the last element of that name. An element of one of
/// the two names whose text cannot be read fails the whole.
pub fn collect_error_metadata(children: Vec<XmlChild>) -> (metadata: Result<
    ErrorMetadata,
    XmlError,
>)
    ensures
        is_metadata(metadata, metadata_of(child_views(children@))),
{
    let ghost all = child_views(children@);
    let mut list = children;
    let mut i: usize = 0;
    let mut code: Option<String> = None;
    let mut message: Option<String> = None;
    proof {
        reveal_strlit("Code");
        reveal_strlit("Message");
        assert("Code"@ != "Message"@) by {
            assert("Code"@.len() != "Message"@.len());
        }
        assert(all.take(0) =~= Seq::<(Seq<char>, Option<Seq<char>>)>::empty());
    }
    while i < list.len()
        invariant
            i <= list.len(),
            all == child_views(list@),
            all == child_views(children@),
            "Code"@ != "Message"@,
            !has_unreadable_field(all.take(i as int)),
            text_view(code) == last_text(all.take(i as int), "Code"@),
            text_view(message) == last_text(all.take(i as int), "Message"@),
        decreases list.len() - i,
    {
        let child = &list[i];
        proof {
            let grown = all.take(i as int + 1);
            assert(grown.drop_last() =~= all.take(i as int));
            assert(grown.last() == child_view(*child));
            assert(all[i as int] == child_view(*child));
        }
        let is_code = is_named(&child.name, "Code");
        let is_message = is_named(&child.name, "Message");
        if is_code || is_message {
            match &child.data {
                Ok(text) => {
                    if is_code {
                        code = Some(text.clone());
                    } else {
                        message = Some(text.clone());
                    }
                },
                Err(_) => {
                    assert(is_field(all[i as int]) && all[i as int].1 is None);
                    assert(has_unreadable_field(all));
                    let unreadable = list.swap_remove(i);
                    return match unreadable.data {
                        Err(error) => Err(XmlError::Decode(error)),
                        Ok(_) => unreached(),
                    };
                },
            }
        }
        i += 1;
        proof {
            let grown = all.take(i as int);
            assert forall|j: int| 0 <= j < grown.len() implies !(is_field(#[trigger] grown[j])
                && grown[j].1 is None) by {
                if j < i - 1 {
                    assert(grown[j] == all.take(i as int - 1)[j]);
                }
            }
        }
    }
    assert(all.take(i as int) =~= all);
    Ok(ErrorMetadata { code, message })
}

/// What an error document says about the error: the code and the message
/// that the children of its root state.
pub fn parse_error_metadata(body: &[u8]) -> (metadata: Result<ErrorMetadata, XmlError>)
    ensures
        is_metadata(
            metadata,
            match xml_children(body@) {
                Some(children) => metadata_of(children),
                None => None,
            },
        ),
{
    match root_children(body) {
        Ok(children) => collect_error_metadata(children),
        Err(error) => Err(XmlError::Decode(error)),
    }
}

} // verus!
