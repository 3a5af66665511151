//! The two ways of writing a mount, and the mount that each text stands for.
//!
//! The colon form is `SOURCE:TARGET` and always means a bind mount. The comma
//! form is a list of `key=value` attributes. A text with a comma in it is read
//! as the comma form, any other as the colon form.

use vstd::prelude::*;
use vstd::string::*;
use crate::text::{
    chars_of, concat, contains_char, copy_option, find_char, first_index_of, same_text, split,
    split_text,
};

verus! {

/// The kinds of mount that the runtime knows.
#[derive(Clone, Copy, Debug, PartialEq, Eq, Structural)]
pub enum MountType {
    Bind,
    Cluster,
    Image,
    Npipe,
    Tmpfs,
    Volume,
}

/// A mount of a container.
#[derive(Debug)]
pub struct Mount {
    /// The path inside the container.
    pub target: Option<String>,
    /// The path of the host, or the name of the volume.
    pub source: Option<String>,
    pub typ: Option<MountType>,
    pub consistency: Option<String>,
}

/// `Mount` over texts.
pub struct MountView {
    pub target: Option<Seq<char>>,
    pub source: Option<Seq<char>>,
    pub typ: Option<MountType>,
    pub consistency: Option<Seq<char>>,
}

impl View for Mount {
    type V = MountView;

    open spec fn view(&self) -> MountView {
        MountView {
            target: self.target.deep_view(),
            source: self.source.deep_view(),
            typ: self.typ,
            consistency: self.consistency.deep_view(),
        }
    }
}

impl DeepView for Mount {
    type V = MountView;

    open spec fn deep_view(&self) -> MountView {
        self@
    }
}

/// Why a text is no mount. Each reason holds the whole text as it was given.
#[derive(Debug)]
pub enum MountError {
    /// The colon form without a colon: there is no target.
    MissingTarget { input: String },
    /// A segment of the comma form without `=`.
    MalformedSegment { segment: String, input: String },
    /// An attribute that is none of source, target, type and consistency.
    UnknownAttribute { name: String, input: String },
    /// A `type` that the runtime does not know.
    InvalidType { value: String, input: String },
}

/// `MountError` over texts.
pub enum MountErrorView {
    MissingTarget { input: Seq<char> },
    MalformedSegment { segment: Seq<char>, input: Seq<char> },
    UnknownAttribute { name: Seq<char>, input: Seq<char> },
    InvalidType { value: Seq<char>, input: Seq<char> },
}

impl View for MountError {
    type V = MountErrorView;

    open spec fn view(&self) -> MountErrorView {
        match self {
            MountError::MissingTarget { input } => MountErrorView::MissingTarget { input: input@ },
            MountError::MalformedSegment { segment, input } => MountErrorView::MalformedSegment {
                segment: segment@,
                input: input@,
            },
            MountError::UnknownAttribute { name, input } => MountErrorView::UnknownAttribute {
                name: name@,
                input: input@,
            },
            MountError::InvalidType { value, input } => MountErrorView::InvalidType {
                value: value@,
                input: input@,
            },
        }
    }
}

impl MountErrorView {
    /// The reason in words. It names what was wrong and quotes the text.
    pub open spec fn text(self) -> Seq<char> {
        match self {
            MountErrorView::MissingTarget { input } => "Invalid mount point: "@ + input,
            MountErrorView::MalformedSegment { segment, input } => "Invalid segment '"@ + segment
                + "' for mount point: "@ + input,
            MountErrorView::UnknownAttribute { name, input } => "Invalid attr '"@ + name
                + "' for mount point: "@ + input,
            MountErrorView::InvalidType { value, input } => "Invalid mount point type '"@ + value
                + "' for mount point: "@ + input,
        }
    }
}

fn quoting(before: &str, part: &String, between: &str, input: &String) -> (t: String)
    ensures
        t@ == before@ + part@ + between@ + input@,
{
    let mut t = concat(before, part.as_str());
    t.append(between);
    t.append(input.as_str());
    t
}

impl MountError {
    /// The reason in words.
    pub fn message(&self) -> (m: String)
        ensures
            m@ == self@.text(),
    {
        match self {
            MountError::MissingTarget { input } => concat("Invalid mount point: ", input.as_str()),
            MountError::MalformedSegment { segment, input } => quoting(
                "Invalid segment '",
                segment,
                "' for mount point: ",
                input,
            ),
            MountError::UnknownAttribute { name, input } => quoting(
                "Invalid attr '",
                name,
                "' for mount point: ",
                input,
            ),
            MountError::InvalidType { value, input } => quoting(
                "Invalid mount point type '",
                value,
                "' for mount point: ",
                input,
            ),
        }
    }
}

/// The kind of mount that `value` names.
pub open spec fn mount_type_named(value: Seq<char>) -> Option<MountType> {
    if value == "bind"@ {
        Some(MountType::Bind)
    } else if value == "cluster"@ {
        Some(MountType::Cluster)
    } else if value == "image"@ {
        Some(MountType::Image)
    } else if value == "npipe"@ {
        Some(MountType::Npipe)
    } else if value == "tmpfs"@ {
        Some(MountType::Tmpfs)
    } else if value == "volume"@ {
        Some(MountType::Volume)
    } else {
        None
    }
}

/// Asks `bollard::models::MountType::from_str` which kind of mount `value`
/// names. That function knows six names, each in lower case and nothing
/// around it, and refuses every other text; the claim here is that it gives
/// the kind for exactly those names.
#[verifier::external_body]
fn mount_type_from_str(value: &str) -> (kind: Option<MountType>)
    ensures
        kind == mount_type_named(value@),
{
    match <bollard::models::MountType as std::str::FromStr>::from_str(value) {
        Ok(bollard::models::MountType::BIND) => Some(MountType::Bind),
        Ok(bollard::models::MountType::CLUSTER) => Some(MountType::Cluster),
        Ok(bollard::models::MountType::IMAGE) => Some(MountType::Image),
        Ok(bollard::models::MountType::NPIPE) => Some(MountType::Npipe),
        Ok(bollard::models::MountType::TMPFS) => Some(MountType::Tmpfs),
        Ok(bollard::models::MountType::VOLUME) => Some(MountType::Volume),
        Err(()) => None,
    }
}

/// The mount with nothing set.
pub open spec fn unset() -> MountView {
    MountView { target: None, source: None, typ: None, consistency: None }
}

/// The mount that the colon form `s` stands for: the text before the first
/// colon is the source, the text up to the next colon or the end is the
/// target, and whatever follows is left aside.
pub open spec fn colon_form(s: Seq<char>) -> Result<MountView, MountErrorView> {
    let parts = split(s, ':');
    if parts.len() < 2 {
        Err(MountErrorView::MissingTarget { input: s })
    } else {
        Ok(
            MountView {
                target: Some(parts[1]),
                source: Some(parts[0]),
                typ: Some(MountType::Bind),
                consistency: None,
            },
        )
    }
}

/// `m` with the attribute that `segment` gives. The name of the attribute
/// stands before the first `=`, its value behind it.
pub open spec fn with_attribute(m: MountView, segment: Seq<char>, input: Seq<char>) -> Result<
    MountView,
    MountErrorView,
> {
    let eq = first_index_of(segment, '=');
    let name = segment.take(eq as int);
    let value = segment.skip(eq as int + 1);
    if eq >= segment.len() {
        Err(MountErrorView::MalformedSegment { segment, input })
    } else if name == "source"@ {
        Ok(MountView { source: Some(value), ..m })
    } else if name == "target"@ {
        Ok(MountView { target: Some(value), ..m })
    } else if name == "type"@ {
        match mount_type_named(value) {
            Some(kind) => Ok(MountView { typ: Some(kind), ..m }),
            None => Err(MountErrorView::InvalidType { value, input }),
        }
    } else if name == "consistency"@ {
        Ok(MountView { consistency: Some(value), ..m })
    } else {
        Err(MountErrorView::UnknownAttribute { name, input })
    }
}

/// `m` with the attributes of `segments`, taken in order; the first segment
/// that is refused ends the reading.
pub open spec fn with_attributes(
    m: MountView,
    segments: Seq<Seq<char>>,
    input: Seq<char>,
) -> Result<MountView, MountErrorView>
    decreases segments.len(),
{
    if segments.len() == 0 {
        Ok(m)
    } else {
        match with_attribute(m, segments[0], input) {
            Ok(next) => with_attributes(next, segments.skip(1), input),
            Err(e) => Err(e),
        }
    }
}

/// The mount that the comma form `s` stands for. No attribute has to be
/// there; one given twice counts as given last.
pub open spec fn comma_form(s: Seq<char>) -> Result<MountView, MountErrorView> {
    with_attributes(unset(), split(s, ','), s)
}

/// The mount that `s` stands for.
pub open spec fn mount_of(s: Seq<char>) -> Result<MountView, MountErrorView> {
    if s.contains(',') {
        comma_form(s)
    } else {
        colon_form(s)
    }
}

/// Reading a mount from its text.
pub trait MountExt: Sized {
    /// The value as a mount.
    spec fn as_mount(&self) -> MountView;

    fn from_comma_string(s: &str) -> (read: Result<Self, MountError>)
        ensures
            match read {
                Ok(m) => comma_form(s@) == Ok::<MountView, MountErrorView>(m.as_mount()),
                Err(e) => comma_form(s@) == Err::<MountView, MountErrorView>(e@),
            },
    ;

    fn from_colon_string(s: &str) -> (read: Result<Self, MountError>)
        ensures
            match read {
                Ok(m) => colon_form(s@) == Ok::<MountView, MountErrorView>(m.as_mount()),
                Err(e) => colon_form(s@) == Err::<MountView, MountErrorView>(e@),
            },
    ;

    fn parse_from_str(s: &str) -> (read: Result<Self, MountError>)
        ensures
            match read {
                Ok(m) => mount_of(s@) == Ok::<MountView, MountErrorView>(m.as_mount()),
                Err(e) => mount_of(s@) == Err::<MountView, MountErrorView>(e@),
            },
    ;
}

fn add_attribute(m: Mount, segment: &str, input: &str) -> (read: Result<Mount, MountError>)
    ensures
        match read {
            Ok(next) => with_attribute(m@, segment@, input@) == Ok::<MountView, MountErrorView>(
                next@,
            ),
            Err(e) => with_attribute(m@, segment@, input@) == Err::<MountView, MountErrorView>(e@),
        },
{
    let chars = chars_of(segment);
    let eq = find_char(&chars, 0, '=');
    proof {
        assert(chars@.skip(0) == chars@);
    }
    if eq >= chars.len() {
        return Err(
            MountError::MalformedSegment {
                segment: String::from_str(segment),
                input: String::from_str(input),
            },
        );
    }
    let name = segment.substring_char(0, eq);
    let value = String::from_str(segment.substring_char(eq + 1, chars.len()));
    proof {
        assert(name@ == segment@.take(eq as int));
        assert(value@ == segment@.skip(eq + 1));
    }
    if same_text(name, "source") {
        Ok(Mount { source: Some(value), ..m })
    } else if same_text(name, "target") {
        Ok(Mount { target: Some(value), ..m })
    } else if same_text(name, "type") {
        match mount_type_from_str(value.as_str()) {
            Some(kind) => Ok(Mount { typ: Some(kind), ..m }),
            None => Err(MountError::InvalidType { value, input: String::from_str(input) }),
        }
    } else if same_text(name, "consistency") {
        Ok(Mount { consistency: Some(value), ..m })
    } else {
        Err(
            MountError::UnknownAttribute {
                name: String::from_str(name),
                input: String::from_str(input),
            },
        )
    }
}

impl MountExt for Mount {
    open spec fn as_mount(&self) -> MountView {
        self@
    }

    fn from_colon_string(s: &str) -> (read: Result<Mount, MountError>) {
        let parts = split_text(s, ':');
        if parts.len() < 2 {
            return Err(MountError::MissingTarget { input: String::from_str(s) });
        }
        Ok(
            Mount {
                target: Some(parts[1].clone()),
                source: Some(parts[0].clone()),
                typ: Some(MountType::Bind),
                consistency: None,
            },
        )
    }

    fn from_comma_string(s: &str) -> (read: Result<Mount, MountError>) {
        let segments = split_text(s, ',');
        let mut mount = Mount { target: None, source: None, typ: None, consistency: None };
        let mut i: usize = 0;
        proof {
            assert(segments.deep_view().skip(0) == segments.deep_view());
        }
        while i < segments.len()
            invariant
                i <= segments.len(),
                segments.deep_view() == split(s@, ','),
                comma_form(s@) == with_attributes(mount@, segments.deep_view().skip(i as int), s@),
            decreases segments.len() - i,
        {
            proof {
                let rest = segments.deep_view().skip(i as int);
                assert(rest[0] == segments[i as int]@);
                assert(rest.skip(1) == segments.deep_view().skip(i + 1));
            }
            match add_attribute(mount, segments[i].as_str(), s) {
                Ok(next) => {
                    mount = next;
                },
                Err(e) => {
                    return Err(e);
                },
            }
            i = i + 1;
        }
        Ok(mount)
    }

    fn parse_from_str(s: &str) -> (read: Result<Mount, MountError>) {
        if contains_char(s, ',') {
            Self::from_comma_string(s)
        } else {
            Self::from_colon_string(s)
        }
    }
}

impl Clone for Mount {
    fn clone(&self) -> (copy: Mount)
        ensures
            copy@ == self@,
    {
        Mount {
            target: copy_option(&self.target),
            source: copy_option(&self.source),
            typ: self.typ,
            consistency: copy_option(&self.consistency),
        }
    }
}

} // verus!
