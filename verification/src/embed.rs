//! The embed payload: a transient rich-content message with a title, a
//! description, a 24-bit RGB sidebar colour and an optional image, together
//! with its serialization to the JSON body that the channel endpoint expects.

use vstd::prelude::*;
use crate::json::{spec_quoted, spec_decimal, push_quoted, push_u32_decimal};

verus! {

/// The sidebar colour used when the caller does not choose one.
pub const DEFAULT_COLOR: u32 = 3447003;

/// The mathematical contents of an embed: what the serialized body is a
/// function of.
pub ghost struct EmbedView {
    pub title: Seq<char>,
    pub description: Seq<char>,
    pub color: u32,
    pub image_url: Option<Seq<char>>,
}

/// One rich-content message, built per call and serialized to JSON.
pub struct EmbedMessage {
    pub title: String,
    pub description: String,
    pub color: u32,
    pub image_url: Option<String>,
}

impl View for EmbedMessage {
    type V = EmbedView;

    open spec fn view(&self) -> EmbedView {
        EmbedView {
            title: self.title@,
            description: self.description@,
            color: self.color,
            image_url: match self.image_url {
                Some(u) => Some(u@),
                None => None,
            },
        }
    }
}

/// The optional image member: present exactly when an image URL was supplied.
pub open spec fn spec_image_block(url: Seq<char>) -> Seq<char> {
    ",\"image\":{\"url\":"@ + spec_quoted(url) + "}"@
}

/// The embed object up to and including its colour member, which every embed
/// carries; the colour is rendered in decimal, unchanged.
pub open spec fn spec_embed_prefix(title: Seq<char>, description: Seq<char>, color: u32) -> Seq<
    char,
> {
    "{\"title\":"@ + spec_quoted(title) + ",\"description\":"@ + spec_quoted(description)
        + ",\"color\":"@ + spec_decimal(color as nat)
}

/// The embed as one JSON object.
pub open spec fn spec_embed_json(e: EmbedView) -> Seq<char> {
    spec_embed_prefix(e.title, e.description, e.color) + (match e.image_url {
        Some(u) => spec_image_block(u),
        None => Seq::<char>::empty(),
    }) + "}"@
}

/// The full request body: a one-element `embeds` array holding the embed.
pub open spec fn spec_body_json(e: EmbedView) -> Seq<char> {
    "{\"embeds\":["@ + spec_embed_json(e) + "]}"@
}

/// An embed's JSON carries an image member exactly when an image URL was
/// supplied: without one the object closes directly after the colour
/// member; with one the image block stands between the colour member and
/// the closing brace, and the serialization is strictly longer than the
/// same embed's without the image.
pub proof fn lemma_image_block_iff(e: EmbedView)
    ensures
        e.image_url is None ==> spec_embed_json(e) == spec_embed_prefix(
            e.title,
            e.description,
            e.color,
        ) + "}"@,
        e.image_url matches Some(u) ==> spec_embed_json(e) == spec_embed_prefix(
            e.title,
            e.description,
            e.color,
        ) + spec_image_block(u) + "}"@,
        e.image_url is Some ==> spec_embed_json(e).len() > spec_embed_json(
            EmbedView { image_url: None, ..e },
        ).len(),
{
    match e.image_url {
        None => {
            assert(spec_embed_json(e) =~= spec_embed_prefix(e.title, e.description, e.color)
                + "}"@);
        },
        Some(u) => {
            let bare = EmbedView { image_url: None, ..e };
            assert(spec_embed_json(bare) =~= spec_embed_prefix(e.title, e.description, e.color)
                + "}"@);
            assert(spec_quoted(u).len() >= 2);
            assert(spec_image_block(u).len() >= 2);
        },
    }
}

impl EmbedMessage {
    /// Builds an embed from its parts.
    pub fn new(title: &str, description: &str, color: u32, image_url: Option<&str>) -> (e:
        EmbedMessage)
        ensures
            e@ == (EmbedView {
                title: title@,
                description: description@,
                color: color,
                image_url: match image_url {
                    Some(u) => Some(u@),
                    None => None::<Seq<char>>,
                },
            }),
    {
        EmbedMessage {
            title: title.to_owned(),
            description: description.to_owned(),
            color: color,
            image_url: match image_url {
                Some(u) => Some(u.to_owned()),
                None => None,
            },
        }
    }

    /// Serializes the embed as one JSON object.
    pub fn to_json(&self) -> (s: String)
        ensures
            s@ == spec_embed_json(self@),
    {
        let mut s = String::new();
        s.append("{\"title\":");
        push_quoted(&mut s, self.title.as_str());
        s.append(",\"description\":");
        push_quoted(&mut s, self.description.as_str());
        s.append(",\"color\":");
        push_u32_decimal(&mut s, self.color);
        match &self.image_url {
            Some(u) => {
                s.append(",\"image\":{\"url\":");
                push_quoted(&mut s, u.as_str());
                s.append("}");
            },
            None => {},
        }
        s.append("}");
        proof {
            assert(s@ =~= spec_embed_json(self@));
        }
        s
    }

    /// Serializes the whole request body around this embed.
    pub fn body_json(&self) -> (s: String)
        ensures
            s@ == spec_body_json(self@),
    {
        let mut s = String::new();
        s.append("{\"embeds\":[");
        let embed = self.to_json();
        s.append(embed.as_str());
        s.append("]}");
        proof {
            assert(s@ =~= spec_body_json(self@));
        }
        s
    }
}

} // verus!
