//! Capability descriptors: the media type of a stream and its attributes.

use vstd::prelude::*;
use vstd::string::*;

verus! {

/// Value of one attribute of a capability descriptor.
#[derive(Debug, PartialEq, Eq)]
pub enum FieldValue {
    /// A signed 32-bit integer, the type of frame dimensions.
    Int(i32),
    /// A piece of text.
    Text(String),
    /// A value of any other type.
    Other,
}

/// One named attribute of a capability descriptor.
#[derive(Debug, PartialEq, Eq)]
pub struct Field {
    pub name: String,
    pub value: FieldValue,
}

/// Structured description of the data that flows through a connection point:
/// a media type such as `video/x-raw` and a list of attributes.
#[derive(Debug, PartialEq, Eq)]
pub struct Capability {
    pub media_type: String,
    pub fields: Vec<Field>,
}

/// Mathematical value of a [`FieldValue`].
pub enum FieldValueModel {
    Int(int),
    Text(Seq<char>),
    Other,
}

/// Mathematical value of a [`Field`].
pub struct FieldModel {
    pub name: Seq<char>,
    pub value: FieldValueModel,
}

/// Mathematical value of a [`Capability`].
pub struct CapabilityModel {
    pub media_type: Seq<char>,
    pub fields: Seq<FieldModel>,
}

impl View for FieldValue {
    type V = FieldValueModel;

    open spec fn view(&self) -> FieldValueModel {
        match self {
            FieldValue::Int(v) => FieldValueModel::Int(*v as int),
            FieldValue::Text(t) => FieldValueModel::Text(t@),
            FieldValue::Other => FieldValueModel::Other,
        }
    }
}

impl View for Field {
    type V = FieldModel;

    open spec fn view(&self) -> FieldModel {
        FieldModel { name: self.name@, value: self.value@ }
    }
}

impl View for Capability {
    type V = CapabilityModel;

    open spec fn view(&self) -> CapabilityModel {
        CapabilityModel {
            media_type: self.media_type@,
            fields: Seq::new(self.fields@.len(), |i: int| self.fields@[i]@),
        }
    }
}

/// The prefix that marks a media type as video.
pub open spec fn video_prefix() -> Seq<char> {
    seq!['v', 'i', 'd', 'e', 'o', '/']
}

/// Name of the attribute that holds the frame width.
pub open spec fn width_key() -> Seq<char> {
    seq!['w', 'i', 'd', 't', 'h']
}

/// Name of the attribute that holds the frame height.
pub open spec fn height_key() -> Seq<char> {
    seq!['h', 'e', 'i', 'g', 'h', 't']
}

/// Value of the first attribute named `key`, if there is one.
pub open spec fn lookup(fields: Seq<FieldModel>, key: Seq<char>) -> Option<FieldValueModel>
    decreases fields.len(),
{
    if fields.len() == 0 {
        None
    } else if fields[0].name == key {
        Some(fields[0].value)
    } else {
        lookup(fields.skip(1), key)
    }
}

impl CapabilityModel {
    /// A descriptor is video when its media type begins with `video/`.
    pub open spec fn is_video(self) -> bool {
        video_prefix().is_prefix_of(self.media_type)
    }

    /// The integer stored under `key`: present only when the attribute
    /// exists and holds an integer.
    pub open spec fn int_field(self, key: Seq<char>) -> Option<int> {
        match lookup(self.fields, key) {
            Some(FieldValueModel::Int(v)) => Some(v),
            _ => None,
        }
    }
}

impl Capability {
    /// Whether the media type begins with `video/`.
    pub fn is_video(&self) -> (r: bool)
        ensures
            r == self@.is_video(),
    {
        let s: &str = self.media_type.as_str();
        let n: usize = s.unicode_len();
        if n < 6 {
            return false;
        }
        let r: bool = s.get_char(0) == 'v' && s.get_char(1) == 'i' && s.get_char(2) == 'd'
            && s.get_char(3) == 'e' && s.get_char(4) == 'o' && s.get_char(5) == '/';
        proof {
            let prefix = video_prefix();
            let head = self.media_type@.subrange(0, 6);
            if r {
                assert(head =~= prefix);
            } else {
                assert(head != prefix) by {
                    if head == prefix {
                        assert(head[0] == prefix[0]);
                        assert(head[1] == prefix[1]);
                        assert(head[2] == prefix[2]);
                        assert(head[3] == prefix[3]);
                        assert(head[4] == prefix[4]);
                        assert(head[5] == prefix[5]);
                    }
                }
            }
        }
        r
    }

    /// Reads the integer attribute named `key`.
    ///
    /// The result is `Some` exactly when the first attribute of that name
    /// holds an integer; a missing attribute and one of another type both
    /// give `None`.
    pub fn int_field(&self, key: &str) -> (r: Option<i32>)
        ensures
            r.is_some() == self@.int_field(key@).is_some(),
            r.is_some() ==> r.unwrap() as int == self@.int_field(key@).unwrap(),
    {
        let wanted: String = String::from_str(key);
        let ghost all = self@.fields;
        let mut i: usize = 0;
        assert(all.skip(0) =~= all);
        while i < self.fields.len()
            invariant
                i <= self.fields.len(),
                all == self@.fields,
                all.len() == self.fields@.len(),
                wanted@ == key@,
                lookup(all, key@) == lookup(all.skip(i as int), key@),
            decreases self.fields.len() - i,
        {
            let field: &Field = &self.fields[i];
            proof {
                let rest = all.skip(i as int);
                assert(rest[0] == field@);
                assert(rest.skip(1) =~= all.skip(i + 1));
            }
            if field.name == wanted {
                match &field.value {
                    FieldValue::Int(v) => {
                        return Some(*v);
                    },
                    _ => {
                        return None;
                    },
                }
            }
            i = i + 1;
        }
        None
    }
}

} // verus!
