//! The segments a message is assembled from.
//!
//! A message on the wire is an ordered list of typed segments: plain text,
//! faces, images, mentions, replies and so on. These are plain data; `Clone`
//! is written by hand so that a clone is known to carry the same value.

use vstd::prelude::*;

verus! {

/// Clone an optional string, value for value.
pub(crate) fn clone_opt_string(o: &Option<String>) -> (r: Option<String>)
    ensures
        r == *o,
{
    match o {
        Option::None => Option::None,
        Option::Some(s) => Option::Some(s.clone()),
    }
}

#[derive(Debug, PartialEq, Eq)]
pub struct TextSegment {
    pub text: String,
}

impl Clone for TextSegment {
    fn clone(&self) -> (r: Self)
        ensures
            r == *self,
    {
        TextSegment { text: self.text.clone() }
    }
}

#[derive(Debug, PartialEq, Eq)]
pub struct FaceSegment {
    pub id: String,
}

impl Clone for FaceSegment {
    fn clone(&self) -> (r: Self)
        ensures
            r == *self,
    {
        FaceSegment { id: self.id.clone() }
    }
}

#[derive(Debug, PartialEq, Eq)]
pub struct ImageSegment {
    pub file: String,
}

impl Clone for ImageSegment {
    fn clone(&self) -> (r: Self)
        ensures
            r == *self,
    {
        ImageSegment { file: self.file.clone() }
    }
}

#[derive(Debug, PartialEq, Eq)]
pub struct RecordSegment {
    pub file: String,
}

impl Clone for RecordSegment {
    fn clone(&self) -> (r: Self)
        ensures
            r == *self,
    {
        RecordSegment { file: self.file.clone() }
    }
}

#[derive(Debug, PartialEq, Eq)]
pub struct VideoSegment {
    pub file: String,
}

impl Clone for VideoSegment {
    fn clone(&self) -> (r: Self)
        ensures
            r == *self,
    {
        VideoSegment { file: self.file.clone() }
    }
}

#[derive(Debug, PartialEq, Eq)]
pub struct AtSegment {
    pub qq: String,
}

impl Clone for AtSegment {
    fn clone(&self) -> (r: Self)
        ensures
            r == *self,
    {
        AtSegment { qq: self.qq.clone() }
    }
}

#[derive(Clone, Copy, Debug, PartialEq, Eq, Structural)]
pub struct DiceSegment;

#[derive(Clone, Copy, Debug, PartialEq, Eq, Structural)]
pub struct ShakeSegment;

#[derive(Debug, PartialEq, Eq)]
pub struct PokeSegment {
    pub ty: String,
    pub id: String,
}

impl Clone for PokeSegment {
    fn clone(&self) -> (r: Self)
        ensures
            r == *self,
    {
        PokeSegment { ty: self.ty.clone(), id: self.id.clone() }
    }
}

#[derive(Clone, Copy, Debug, PartialEq, Eq, Structural)]
pub struct AnonymousSegment;

#[derive(Debug, PartialEq, Eq)]
pub struct ShareSegment {
    pub url: String,
    pub title: String,
}

impl Clone for ShareSegment {
    fn clone(&self) -> (r: Self)
        ensures
            r == *self,
    {
        ShareSegment { url: self.url.clone(), title: self.title.clone() }
    }
}

#[derive(Clone, Copy, Debug, PartialEq, Eq, Structural)]
pub enum ContactType {
    QQ,
    Group,
}

#[derive(Debug, PartialEq, Eq)]
pub struct ContactSegment {
    pub ty: ContactType,
    pub id: String,
}

impl Clone for ContactSegment {
    fn clone(&self) -> (r: Self)
        ensures
            r == *self,
    {
        ContactSegment { ty: self.ty, id: self.id.clone() }
    }
}

#[derive(Debug, PartialEq, Eq)]
pub struct LocationSegment {
    pub lat: String,
    pub lon: String,
    pub title: Option<String>,
    pub content: Option<String>,
}

impl Clone for LocationSegment {
    fn clone(&self) -> (r: Self)
        ensures
            r == *self,
    {
        LocationSegment {
            lat: self.lat.clone(),
            lon: self.lon.clone(),
            title: clone_opt_string(&self.title),
            content: clone_opt_string(&self.content),
        }
    }
}

#[derive(Debug, PartialEq, Eq)]
pub struct MusicSegment {
    pub ty: String,
    pub id: Option<String>,
    pub url: Option<String>,
    pub audio: Option<String>,
    pub title: Option<String>,
}

impl Clone for MusicSegment {
    fn clone(&self) -> (r: Self)
        ensures
            r == *self,
    {
        MusicSegment {
            ty: self.ty.clone(),
            id: clone_opt_string(&self.id),
            url: clone_opt_string(&self.url),
            audio: clone_opt_string(&self.audio),
            title: clone_opt_string(&self.title),
        }
    }
}

#[derive(Debug, PartialEq, Eq)]
pub struct ReplySegment {
    pub id: String,
}

impl Clone for ReplySegment {
    fn clone(&self) -> (r: Self)
        ensures
            r == *self,
    {
        ReplySegment { id: self.id.clone() }
    }
}

#[derive(Debug, PartialEq, Eq)]
pub struct ForwardSegment {
    pub id: String,
}

impl Clone for ForwardSegment {
    fn clone(&self) -> (r: Self)
        ensures
            r == *self,
    {
        ForwardSegment { id: self.id.clone() }
    }
}

#[derive(Debug, PartialEq, Eq)]
pub struct NodeSegment {
    pub id: String,
}

impl Clone for NodeSegment {
    fn clone(&self) -> (r: Self)
        ensures
            r == *self,
    {
        NodeSegment { id: self.id.clone() }
    }
}

#[derive(Debug, PartialEq, Eq)]
pub struct XmlSegment {
    pub data: String,
}

impl Clone for XmlSegment {
    fn clone(&self) -> (r: Self)
        ensures
            r == *self,
    {
        XmlSegment { data: self.data.clone() }
    }
}

#[derive(Debug, PartialEq, Eq)]
pub struct JsonSegment {
    pub data: String,
}

impl Clone for JsonSegment {
    fn clone(&self) -> (r: Self)
        ensures
            r == *self,
    {
        JsonSegment { data: self.data.clone() }
    }
}

/// One segment of a message.
#[derive(Debug, PartialEq, Eq)]
pub enum Segment {
    Text(TextSegment),
    Face(FaceSegment),
    Image(ImageSegment),
    Record(RecordSegment),
    Video(VideoSegment),
    At(AtSegment),
    Dice(DiceSegment),
    Shake(ShakeSegment),
    Poke(PokeSegment),
    Anonymous(AnonymousSegment),
    Share(ShareSegment),
    Contact(ContactSegment),
    Location(LocationSegment),
    Music(MusicSegment),
    Reply(ReplySegment),
    Forward(ForwardSegment),
    Node(NodeSegment),
    Xml(XmlSegment),
    Json(JsonSegment),
}

impl Clone for Segment {
    fn clone(&self) -> (r: Self)
        ensures
            r == *self,
    {
        match self {
            Segment::Text(s) => Segment::Text(s.clone()),
            Segment::Face(s) => Segment::Face(s.clone()),
            Segment::Image(s) => Segment::Image(s.clone()),
            Segment::Record(s) => Segment::Record(s.clone()),
            Segment::Video(s) => Segment::Video(s.clone()),
            Segment::At(s) => Segment::At(s.clone()),
            Segment::Dice(s) => Segment::Dice(*s),
            Segment::Shake(s) => Segment::Shake(*s),
            Segment::Poke(s) => Segment::Poke(s.clone()),
            Segment::Anonymous(s) => Segment::Anonymous(*s),
            Segment::Share(s) => Segment::Share(s.clone()),
            Segment::Contact(s) => Segment::Contact(s.clone()),
            Segment::Location(s) => Segment::Location(s.clone()),
            Segment::Music(s) => Segment::Music(s.clone()),
            Segment::Reply(s) => Segment::Reply(s.clone()),
            Segment::Forward(s) => Segment::Forward(s.clone()),
            Segment::Node(s) => Segment::Node(s.clone()),
            Segment::Xml(s) => Segment::Xml(s.clone()),
            Segment::Json(s) => Segment::Json(s.clone()),
        }
    }
}

/// Clone a whole message, value for value.
pub fn clone_message(m: &Vec<Segment>) -> (r: Vec<Segment>)
    ensures
        r@ == m@,
{
    let mut r: Vec<Segment> = Vec::new();
    let mut i: usize = 0;
    while i < m.len()
        invariant
            i <= m@.len(),
            r@ == m@.take(i as int),
        decreases m@.len() - i,
    {
        r.push(m[i].clone());
        proof {
            assert(m@.take(i + 1) =~= m@.take(i as int) + seq![m@[i as int]]);
        }
        i = i + 1;
    }
    proof {
        assert(m@.take(m@.len() as int) =~= m@);
    }
    r
}

} // verus!
