//! The fields of the forms that clients send.

use crate::expire::{parse_expire_strategy, requested_strategy};
use crate::outside::media_type;
use crate::post::{BuilderError, BuilderView, PostDataBuilder};
use crate::reply::{rejection, Rejection, RejectionView};
use crate::text::same_text;
use vstd::prelude::*;

verus! {

/// What is to be done next with a field of an upload.
#[derive(Debug, Clone, Copy, PartialEq, Eq, Structural)]
pub enum FieldStep {
    /// Read its content as bytes and hand them to `take_bytes`.
    ReadBytes,
    /// Read its content as text and hand it to `take_text`.
    ReadText,
    /// Nothing: go on to the next field.
    Done,
}

/// The text behind a reference, if there is one.
pub open spec fn text_behind(text: Option<&str>) -> Option<Seq<char>> {
    match text {
        Some(t) => Some(t@),
        None => None,
    }
}

/// The values in an outcome.
pub open spec fn outcome<T>(r: Result<T, Rejection>) -> Result<T, RejectionView> {
    match r {
        Ok(t) => Ok(t),
        Err(e) => Err(e@),
    }
}

/// What the head of a field makes of an upload, and what is to be done next.
pub open spec fn after_field(
    b: BuilderView,
    name: Option<Seq<char>>,
    file_name: Option<Seq<char>>,
    content_type: Option<Seq<char>>,
) -> (BuilderView, Result<FieldStep, RejectionView>) {
    match name {
        None => (b, Err(rejection(400, "A field w/o a name. wtf."@))),
        Some(name) => if name == "file"@ {
            match file_name {
                None => (b, Err(rejection(400, "A file w/o a file name. wtf."@))),
                Some(f) => (
                    BuilderView {
                        file_name: Some(f),
                        content_encoding: match content_type {
                            Some(t) => media_type(t),
                            None => b.content_encoding,
                        },
                        ..b
                    },
                    Ok(FieldStep::ReadBytes),
                ),
            }
        } else if name == "secret"@ {
            (BuilderView { secret: Some(true), ..b }, Ok(FieldStep::Done))
        } else if name == "nsfw"@ {
            (BuilderView { nsfw: Some(true), ..b }, Ok(FieldStep::Done))
        } else if name == "expire"@ {
            (b, Ok(FieldStep::ReadText))
        } else {
            (b, Ok(FieldStep::Done))
        },
    }
}

/// What the content of a `file` field makes of an upload, if it could be read.
pub open spec fn after_bytes(b: BuilderView, data: Option<Seq<u8>>) -> (
    BuilderView,
    Result<(), RejectionView>,
) {
    match data {
        None => (b, Err(rejection(400, "Error extracting data."@))),
        Some(d) => (
            BuilderView { file_size: Some(d.len() as usize), file_data: Some(d), ..b },
            Ok(()),
        ),
    }
}

/// What the content of an `expire` field makes of an upload, or why it could not be
/// read.
pub open spec fn after_text(b: BuilderView, text: Result<Seq<char>, RejectionView>) -> (
    BuilderView,
    Result<(), RejectionView>,
) {
    match text {
        Err(e) => (b, Err(e)),
        Ok(t) => match requested_strategy(t) {
            Err(e) => (b, Err(e)),
            Ok(strategy) => (BuilderView { expire_strategy: Some(strategy), ..b }, Ok(())),
        },
    }
}

impl PostDataBuilder {
    /// Takes in the head of a field: its name, and the file name and media type that
    /// came with it.
    pub fn take_field(
        &mut self,
        name: Option<&str>,
        file_name: Option<&str>,
        content_type: Option<&str>,
    ) -> (step: Result<FieldStep, Rejection>)
        ensures
            (final(self)@, outcome(step)) == after_field(
                old(self)@,
                text_behind(name),
                text_behind(file_name),
                text_behind(content_type),
            ),
    {
        let name = match name {
            Some(name) => name,
            None => return Err(Rejection::new(400, "A field w/o a name. wtf.")),
        };
        if same_text(name, "file") {
            match file_name {
                Some(file_name) => {
                    self.with_file_name(file_name.to_owned());
                },
                None => return Err(Rejection::new(400, "A file w/o a file name. wtf.")),
            }
            if let Some(content_type) = content_type {
                self.with_content_type(content_type);
            }
            Ok(FieldStep::ReadBytes)
        } else if same_text(name, "secret") {
            self.with_secret(true);
            Ok(FieldStep::Done)
        } else if same_text(name, "nsfw") {
            self.with_nsfw(true);
            Ok(FieldStep::Done)
        } else if same_text(name, "expire") {
            Ok(FieldStep::ReadText)
        } else {
            Ok(FieldStep::Done)
        }
    }

    /// Takes in the content of a `file` field, if it could be read.
    pub fn take_bytes(&mut self, data: Option<Vec<u8>>) -> (taken: Result<(), Rejection>)
        ensures
            (final(self)@, outcome(taken)) == after_bytes(
                old(self)@,
                match data {
                    Some(d) => Some(d@),
                    None => None,
                },
            ),
    {
        match data {
            Some(data) => {
                self.with_file_size(data.len());
                self.with_file_data(data);
                Ok(())
            },
            None => Err(Rejection::new(400, "Error extracting data.")),
        }
    }

    /// Takes in the content of an `expire` field, or why it could not be read.
    pub fn take_text(&mut self, text: Result<String, Rejection>) -> (taken: Result<(), Rejection>)
        ensures
            (final(self)@, outcome(taken)) == after_text(
                old(self)@,
                match text {
                    Ok(t) => Ok(t@),
                    Err(e) => Err(e@),
                },
            ),
    {
        let text = match text {
            Ok(text) => text,
            Err(e) => return Err(e),
        };
        match parse_expire_strategy(text) {
            Ok(strategy) => {
                self.with_expire_strategy(strategy);
                Ok(())
            },
            Err(e) => Err(e),
        }
    }
}

/// The answer to an upload that cannot be made.
pub open spec fn builder_refusal(e: BuilderError) -> RejectionView {
    match e {
        BuilderError::MissingFileData | BuilderError::MissingFileName => rejection(
            400,
            "Missing file data or file name."@,
        ),
        BuilderError::OverflowingExpirationSpan(_) => rejection(
            500,
            "Error calculating expiration date."@,
        ),
        BuilderError::MIMEError => rejection(500, "Can't determine file type."@),
    }
}

/// Answers an upload that cannot be made.
pub fn refuse_builder(e: BuilderError) -> (r: Rejection)
    ensures
        r@ == builder_refusal(e),
{
    match e {
        BuilderError::MissingFileData | BuilderError::MissingFileName => Rejection::new(
            400,
            "Missing file data or file name.",
        ),
        BuilderError::OverflowingExpirationSpan(_) => Rejection::new(
            500,
            "Error calculating expiration date.",
        ),
        BuilderError::MIMEError => Rejection::new(500, "Can't determine file type."),
    }
}

/// What the name of a field asks of a file that exists already.
#[derive(Debug, Clone, Copy, PartialEq, Eq, Structural)]
pub enum Modification {
    Delete,
    Nothing,
}

/// What the field of this name asks of a file that exists already.
pub open spec fn modification_asked(name: Option<Seq<char>>) -> Result<Modification, RejectionView> {
    match name {
        None => Err(rejection(400, "A field w/o a name. wtf."@)),
        Some(name) => if name == "delete"@ {
            Ok(Modification::Delete)
        } else {
            Ok(Modification::Nothing)
        },
    }
}

/// Reads the name of a field in a request to modify a file.
pub fn modify_field(name: Option<&str>) -> (asked: Result<Modification, Rejection>)
    ensures
        outcome(asked) == modification_asked(text_behind(name)),
{
    match name {
        None => Err(Rejection::new(400, "A field w/o a name. wtf.")),
        Some(name) => if same_text(name, "delete") {
            Ok(Modification::Delete)
        } else {
            Ok(Modification::Nothing)
        },
    }
}

} // verus!
