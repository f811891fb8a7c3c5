//! The board model: a structurally faithful, strongly-typed image of one
//! Trello board export.
//!
//! Every entity is immutable once constructed and owned by its parent; soft
//! references (`id_board`, `id_list`, member and label identifier lists) stay
//! plain strings.  Fields whose format the export does not document are not
//! represented at all: the decoder accepts and discards them.

use vstd::prelude::*;

use crate::value::{Json, JsonV, entries_v};

verus! {

/// A 24-character hexadecimal identifier, kept as a plain string.
pub type Id = String;

/// A compound node identifier, kept as a plain string.
pub type NodeId = String;

/// An ISO-8601 timestamp, kept as a plain string.
pub type Date = String;

/// A hex color or the empty string, kept as a plain string.
pub type Color = String;

/// The fixed table of thirty named label-color slots; an empty string means
/// the slot is unnamed.
#[derive(Debug, PartialEq)]
pub struct BoardLabels {
    pub green: String,
    pub yellow: String,
    pub orange: String,
    pub red: String,
    pub purple: String,
    pub blue: String,
    pub sky: String,
    pub lime: String,
    pub pink: String,
    pub black: String,
    pub green_dark: String,
    pub yellow_dark: String,
    pub orange_dark: String,
    pub red_dark: String,
    pub purple_dark: String,
    pub blue_dark: String,
    pub sky_dark: String,
    pub lime_dark: String,
    pub pink_dark: String,
    pub black_dark: String,
    pub green_light: String,
    pub yellow_light: String,
    pub orange_light: String,
    pub red_light: String,
    pub purple_light: String,
    pub blue_light: String,
    pub sky_light: String,
    pub lime_light: String,
    pub pink_light: String,
    pub black_light: String,
}

/// A scaled preview or rendition of an attachment or cover image.
#[derive(Debug, PartialEq)]
pub struct Image {
    pub id: Id,
    pub scaled: bool,
    pub url: String,
    pub bytes: i64,
    pub height: i64,
    pub width: i64,
}

/// A file or link associated with a card.
#[derive(Debug, PartialEq)]
pub struct Attachment {
    pub id: Id,
    pub bytes: i64,
    pub date: Date,
    pub edge_color: Color,
    pub id_member: Id,
    pub is_upload: bool,
    pub mime_type: String,
    pub name: String,
    pub previews: Vec<Image>,
    pub url: String,
    pub pos: String,
    pub file_name: String,
}

/// Visual styling of a card, optionally backed by an attachment or an
/// uploaded background.  `size` and `brightness` are open string enums.
#[derive(Debug, PartialEq)]
pub struct Cover {
    pub id_attachment: Option<Id>,
    pub color: Option<Color>,
    pub id_uploaded_background: Option<Id>,
    pub size: String,
    pub brightness: String,
    pub scaled: Option<Vec<Image>>,
    pub edge_color: Option<Color>,
    pub id_plugin: Option<Id>,
}

/// A card's aggregate counters.  `attachments_by_type` is a free-form
/// mapping kept verbatim, in document order.
#[derive(Debug, PartialEq)]
pub struct Badges {
    pub attachments_by_type: Vec<(String, Json)>,
    pub location: bool,
    pub votes: i64,
    pub viewing_member_voted: bool,
    pub subscribed: bool,
    pub check_items: i64,
    pub check_items_checked: i64,
    pub check_items_earliest_due: Option<Date>,
    pub comments: i64,
    pub attachments: i64,
    pub description: bool,
    pub due: Option<Date>,
    pub due_complete: bool,
    pub start: Option<Date>,
}

/// One card of the board.  `due_reminder` keeps the sentinel `-1` verbatim.
#[derive(Debug, PartialEq)]
pub struct Card {
    pub id: Id,
    pub badges: Badges,
    pub closed: bool,
    pub due_complete: bool,
    pub date_last_activity: Date,
    pub desc: String,
    pub due_reminder: i64,
    pub email: String,
    pub id_board: Id,
    pub id_checklists: Vec<Id>,
    pub id_labels: Vec<Id>,
    pub id_list: Id,
    pub id_members: Vec<Id>,
    pub id_members_voted: Vec<Id>,
    pub id_organization: Id,
    pub id_short: i64,
    pub id_attachment_cover: Option<Id>,
    pub labels: Vec<String>,
    pub location_name: Option<String>,
    pub manual_cover_attachment: bool,
    pub name: String,
    pub node_id: NodeId,
    pub pos: String,
    pub short_link: String,
    pub short_url: String,
    pub static_map_url: Option<String>,
    pub subscribed: bool,
    pub url: String,
    pub cover: Cover,
    pub is_template: bool,
    pub attachments: Vec<Attachment>,
}

/// The root aggregate: one board and all its cards, in document order.
#[derive(Debug, PartialEq)]
pub struct Board {
    pub id: Id,
    pub node_id: NodeId,
    pub name: String,
    pub desc: String,
    pub closed: bool,
    pub date_closed: Option<Date>,
    pub id_organization: Option<Id>,
    pub id_enterprise: Option<Id>,
    pub pinned: bool,
    pub starred: bool,
    pub url: String,
    pub short_link: String,
    pub subscribed: bool,
    pub label_names: BoardLabels,
    pub date_last_activity: Date,
    pub date_last_view: Date,
    pub short_url: String,
    pub id_tags: Vec<Id>,
    pub date_plugin_disable: Option<Date>,
    pub ix_update: String,
    pub enterprise_owned: bool,
    pub id_board_source: Option<Id>,
    pub premium_features: Vec<String>,
    pub id_member_creator: Id,
    pub cards: Vec<Card>,
}

/// The mathematical value of an optional string.
pub open spec fn opt_v(o: Option<String>) -> Option<Seq<char>> {
    match o {
        Some(s) => Some(s@),
        None => None,
    }
}

/// The mathematical value of a list of strings.
pub open spec fn strs_v(v: Seq<String>) -> Seq<Seq<char>> {
    Seq::new(v.len(), |i: int| v[i]@)
}

pub struct LabelsV {
    pub green: Seq<char>,
    pub yellow: Seq<char>,
    pub orange: Seq<char>,
    pub red: Seq<char>,
    pub purple: Seq<char>,
    pub blue: Seq<char>,
    pub sky: Seq<char>,
    pub lime: Seq<char>,
    pub pink: Seq<char>,
    pub black: Seq<char>,
    pub green_dark: Seq<char>,
    pub yellow_dark: Seq<char>,
    pub orange_dark: Seq<char>,
    pub red_dark: Seq<char>,
    pub purple_dark: Seq<char>,
    pub blue_dark: Seq<char>,
    pub sky_dark: Seq<char>,
    pub lime_dark: Seq<char>,
    pub pink_dark: Seq<char>,
    pub black_dark: Seq<char>,
    pub green_light: Seq<char>,
    pub yellow_light: Seq<char>,
    pub orange_light: Seq<char>,
    pub red_light: Seq<char>,
    pub purple_light: Seq<char>,
    pub blue_light: Seq<char>,
    pub sky_light: Seq<char>,
    pub lime_light: Seq<char>,
    pub pink_light: Seq<char>,
    pub black_light: Seq<char>,
}

pub struct ImageV {
    pub id: Seq<char>,
    pub scaled: bool,
    pub url: Seq<char>,
    pub bytes: i64,
    pub height: i64,
    pub width: i64,
}

pub struct AttachmentV {
    pub id: Seq<char>,
    pub bytes: i64,
    pub date: Seq<char>,
    pub edge_color: Seq<char>,
    pub id_member: Seq<char>,
    pub is_upload: bool,
    pub mime_type: Seq<char>,
    pub name: Seq<char>,
    pub previews: Seq<ImageV>,
    pub url: Seq<char>,
    pub pos: Seq<char>,
    pub file_name: Seq<char>,
}

pub struct CoverV {
    pub id_attachment: Option<Seq<char>>,
    pub color: Option<Seq<char>>,
    pub id_uploaded_background: Option<Seq<char>>,
    pub size: Seq<char>,
    pub brightness: Seq<char>,
    pub scaled: Option<Seq<ImageV>>,
    pub edge_color: Option<Seq<char>>,
    pub id_plugin: Option<Seq<char>>,
}

pub struct BadgesV {
    pub attachments_by_type: Seq<(Seq<char>, JsonV)>,
    pub location: bool,
    pub votes: i64,
    pub viewing_member_voted: bool,
    pub subscribed: bool,
    pub check_items: i64,
    pub check_items_checked: i64,
    pub check_items_earliest_due: Option<Seq<char>>,
    pub comments: i64,
    pub attachments: i64,
    pub description: bool,
    pub due: Option<Seq<char>>,
    pub due_complete: bool,
    pub start: Option<Seq<char>>,
}

pub struct CardV {
    pub id: Seq<char>,
    pub badges: BadgesV,
    pub closed: bool,
    pub due_complete: bool,
    pub date_last_activity: Seq<char>,
    pub desc: Seq<char>,
    pub due_reminder: i64,
    pub email: Seq<char>,
    pub id_board: Seq<char>,
    pub id_checklists: Seq<Seq<char>>,
    pub id_labels: Seq<Seq<char>>,
    pub id_list: Seq<char>,
    pub id_members: Seq<Seq<char>>,
    pub id_members_voted: Seq<Seq<char>>,
    pub id_organization: Seq<char>,
    pub id_short: i64,
    pub id_attachment_cover: Option<Seq<char>>,
    pub labels: Seq<Seq<char>>,
    pub location_name: Option<Seq<char>>,
    pub manual_cover_attachment: bool,
    pub name: Seq<char>,
    pub node_id: Seq<char>,
    pub pos: Seq<char>,
    pub short_link: Seq<char>,
    pub short_url: Seq<char>,
    pub static_map_url: Option<Seq<char>>,
    pub subscribed: bool,
    pub url: Seq<char>,
    pub cover: CoverV,
    pub is_template: bool,
    pub attachments: Seq<AttachmentV>,
}

pub struct BoardV {
    pub id: Seq<char>,
    pub node_id: Seq<char>,
    pub name: Seq<char>,
    pub desc: Seq<char>,
    pub closed: bool,
    pub date_closed: Option<Seq<char>>,
    pub id_organization: Option<Seq<char>>,
    pub id_enterprise: Option<Seq<char>>,
    pub pinned: bool,
    pub starred: bool,
    pub url: Seq<char>,
    pub short_link: Seq<char>,
    pub subscribed: bool,
    pub label_names: LabelsV,
    pub date_last_activity: Seq<char>,
    pub date_last_view: Seq<char>,
    pub short_url: Seq<char>,
    pub id_tags: Seq<Seq<char>>,
    pub date_plugin_disable: Option<Seq<char>>,
    pub ix_update: Seq<char>,
    pub enterprise_owned: bool,
    pub id_board_source: Option<Seq<char>>,
    pub premium_features: Seq<Seq<char>>,
    pub id_member_creator: Seq<char>,
    pub cards: Seq<CardV>,
}

impl BoardLabels {
    /// The mathematical value of the label table.
    pub open spec fn v(self) -> LabelsV {
        LabelsV {
            green: self.green@,
            yellow: self.yellow@,
            orange: self.orange@,
            red: self.red@,
            purple: self.purple@,
            blue: self.blue@,
            sky: self.sky@,
            lime: self.lime@,
            pink: self.pink@,
            black: self.black@,
            green_dark: self.green_dark@,
            yellow_dark: self.yellow_dark@,
            orange_dark: self.orange_dark@,
            red_dark: self.red_dark@,
            purple_dark: self.purple_dark@,
            blue_dark: self.blue_dark@,
            sky_dark: self.sky_dark@,
            lime_dark: self.lime_dark@,
            pink_dark: self.pink_dark@,
            black_dark: self.black_dark@,
            green_light: self.green_light@,
            yellow_light: self.yellow_light@,
            orange_light: self.orange_light@,
            red_light: self.red_light@,
            purple_light: self.purple_light@,
            blue_light: self.blue_light@,
            sky_light: self.sky_light@,
            lime_light: self.lime_light@,
            pink_light: self.pink_light@,
            black_light: self.black_light@,
        }
    }
}

impl Image {
    /// The mathematical value of this image.
    pub open spec fn v(self) -> ImageV {
        ImageV {
            id: self.id@,
            scaled: self.scaled,
            url: self.url@,
            bytes: self.bytes,
            height: self.height,
            width: self.width,
        }
    }
}

/// The mathematical value of a list of images.
pub open spec fn images_v(v: Seq<Image>) -> Seq<ImageV> {
    Seq::new(v.len(), |i: int| v[i].v())
}

impl Attachment {
    /// The mathematical value of this attachment.
    pub open spec fn v(self) -> AttachmentV {
        AttachmentV {
            id: self.id@,
            bytes: self.bytes,
            date: self.date@,
            edge_color: self.edge_color@,
            id_member: self.id_member@,
            is_upload: self.is_upload,
            mime_type: self.mime_type@,
            name: self.name@,
            previews: images_v(self.previews@),
            url: self.url@,
            pos: self.pos@,
            file_name: self.file_name@,
        }
    }
}

/// The mathematical value of a list of attachments.
pub open spec fn attachments_v(v: Seq<Attachment>) -> Seq<AttachmentV> {
    Seq::new(v.len(), |i: int| v[i].v())
}

impl Cover {
    /// The mathematical value of this cover.
    pub open spec fn v(self) -> CoverV {
        CoverV {
            id_attachment: opt_v(self.id_attachment),
            color: opt_v(self.color),
            id_uploaded_background: opt_v(self.id_uploaded_background),
            size: self.size@,
            brightness: self.brightness@,
            scaled: match self.scaled {
                Some(imgs) => Some(images_v(imgs@)),
                None => None,
            },
            edge_color: opt_v(self.edge_color),
            id_plugin: opt_v(self.id_plugin),
        }
    }
}

impl Badges {
    /// The mathematical value of these badges.
    pub open spec fn v(self) -> BadgesV {
        BadgesV {
            attachments_by_type: entries_v(self.attachments_by_type@),
            location: self.location,
            votes: self.votes,
            viewing_member_voted: self.viewing_member_voted,
            subscribed: self.subscribed,
            check_items: self.check_items,
            check_items_checked: self.check_items_checked,
            check_items_earliest_due: opt_v(self.check_items_earliest_due),
            comments: self.comments,
            attachments: self.attachments,
            description: self.description,
            due: opt_v(self.due),
            due_complete: self.due_complete,
            start: opt_v(self.start),
        }
    }
}

impl Card {
    /// The mathematical value of this card.
    pub open spec fn v(self) -> CardV {
        CardV {
            id: self.id@,
            badges: self.badges.v(),
            closed: self.closed,
            due_complete: self.due_complete,
            date_last_activity: self.date_last_activity@,
            desc: self.desc@,
            due_reminder: self.due_reminder,
            email: self.email@,
            id_board: self.id_board@,
            id_checklists: strs_v(self.id_checklists@),
            id_labels: strs_v(self.id_labels@),
            id_list: self.id_list@,
            id_members: strs_v(self.id_members@),
            id_members_voted: strs_v(self.id_members_voted@),
            id_organization: self.id_organization@,
            id_short: self.id_short,
            id_attachment_cover: opt_v(self.id_attachment_cover),
            labels: strs_v(self.labels@),
            location_name: opt_v(self.location_name),
            manual_cover_attachment: self.manual_cover_attachment,
            name: self.name@,
            node_id: self.node_id@,
            pos: self.pos@,
            short_link: self.short_link@,
            short_url: self.short_url@,
            static_map_url: opt_v(self.static_map_url),
            subscribed: self.subscribed,
            url: self.url@,
            cover: self.cover.v(),
            is_template: self.is_template,
            attachments: attachments_v(self.attachments@),
        }
    }
}

/// The mathematical value of a list of cards.
pub open spec fn cards_v(v: Seq<Card>) -> Seq<CardV> {
    Seq::new(v.len(), |i: int| v[i].v())
}

impl Board {
    /// The mathematical value of this board.
    pub open spec fn v(self) -> BoardV {
        BoardV {
            id: self.id@,
            node_id: self.node_id@,
            name: self.name@,
            desc: self.desc@,
            closed: self.closed,
            date_closed: opt_v(self.date_closed),
            id_organization: opt_v(self.id_organization),
            id_enterprise: opt_v(self.id_enterprise),
            pinned: self.pinned,
            starred: self.starred,
            url: self.url@,
            short_link: self.short_link@,
            subscribed: self.subscribed,
            label_names: self.label_names.v(),
            date_last_activity: self.date_last_activity@,
            date_last_view: self.date_last_view@,
            short_url: self.short_url@,
            id_tags: strs_v(self.id_tags@),
            date_plugin_disable: opt_v(self.date_plugin_disable),
            ix_update: self.ix_update@,
            enterprise_owned: self.enterprise_owned,
            id_board_source: opt_v(self.id_board_source),
            premium_features: strs_v(self.premium_features@),
            id_member_creator: self.id_member_creator@,
            cards: cards_v(self.cards@),
        }
    }
}

} // verus!
