//! The board schema: which fields each entity requires, what shape each
//! field has, and the model value a well-shaped document denotes.
//!
//! The schema is table-driven: each entity lists its scalar fields once,
//! with their declared shapes; nested entities (the label table, badges,
//! covers, attachments, previews, cards) are validated by their own
//! functions.  Keys that no table names are accepted and discarded, which is
//! how the format's undocumented fields are tolerated; a repeated key reads
//! through its first entry, and later duplicates are likewise ignored.

use vstd::prelude::*;

use crate::error::{found_of, Entity, Expected, Found, SchemaErrV};
use crate::model::{AttachmentV, BadgesV, BoardV, CardV, CoverV, ImageV, LabelsV};
use crate::num::{int64_of, int_token_val};
use crate::value::{lookup, JsonV};

verus! {

/// The declared shape of a scalar field.
#[derive(Debug, PartialEq, Eq, Structural, Clone, Copy)]
pub enum FKind {
    /// A boolean.
    FBool,
    /// A number denoting an integer that fits `i64`.
    FI64,
    /// Any number; its raw token text is kept, so fractional ordering keys
    /// survive verbatim.
    FNum,
    /// A string.
    FStr,
    /// A string, or `null`, or absent.
    FOptStr,
    /// An array of strings.
    FArrStr,
}

/// Why an integer field rejected a number token: the token does not denote
/// an integer at all (a fraction or exponent form), or it denotes one
/// outside the `i64` range.
pub open spec fn num_found(t: Seq<char>) -> Found {
    if int_token_val(t) is None {
        Found::NotInteger
    } else {
        Found::OutOfRange
    }
}

/// The first non-string element's shape, if any.
pub open spec fn arr_str_err(vs: Seq<JsonV>) -> Option<Found>
    decreases vs.len(),
{
    if vs.len() == 0 {
        None
    } else {
        match vs[0] {
            JsonV::Str(_) => arr_str_err(vs.drop_first()),
            x => Some(found_of(x)),
        }
    }
}

/// How a field's value violates its declared shape, if it does.
pub open spec fn kind_err(v: Option<JsonV>, k: FKind) -> Option<(Expected, Found)> {
    match k {
        FKind::FBool => match v {
            Some(JsonV::Bool(_)) => None,
            Some(x) => Some((Expected::BoolShape, found_of(x))),
            None => Some((Expected::BoolShape, Found::Absent)),
        },
        FKind::FStr => match v {
            Some(JsonV::Str(_)) => None,
            Some(x) => Some((Expected::StrShape, found_of(x))),
            None => Some((Expected::StrShape, Found::Absent)),
        },
        FKind::FOptStr => match v {
            None => None,
            Some(JsonV::Null) => None,
            Some(JsonV::Str(_)) => None,
            Some(x) => Some((Expected::StrOrNull, found_of(x))),
        },
        FKind::FI64 => match v {
            Some(JsonV::Num(t)) => if int64_of(t) is Some {
                None
            } else {
                Some((Expected::IntShape, num_found(t)))
            },
            Some(x) => Some((Expected::IntShape, found_of(x))),
            None => Some((Expected::IntShape, Found::Absent)),
        },
        FKind::FNum => match v {
            Some(JsonV::Num(_)) => None,
            Some(x) => Some((Expected::NumShape, found_of(x))),
            None => Some((Expected::NumShape, Found::Absent)),
        },
        FKind::FArrStr => match v {
            Some(JsonV::Arr(vs)) => match arr_str_err(vs) {
                None => None,
                Some(f) => Some((Expected::StrArray, f)),
            },
            Some(x) => Some((Expected::StrArray, found_of(x))),
            None => Some((Expected::StrArray, Found::Absent)),
        },
    }
}

/// The first schema error among the table's fields, in table order.
pub open spec fn check_fields(
    o: Seq<(Seq<char>, JsonV)>,
    table: Seq<(Seq<char>, FKind)>,
    at: Entity,
) -> Option<SchemaErrV>
    decreases table.len(),
{
    if table.len() == 0 {
        None
    } else {
        match kind_err(lookup(o, table[0].0), table[0].1) {
            Some((exp, fnd)) => Some(
                SchemaErrV { at, field: table[0].0, expected: exp, found: fnd },
            ),
            None => check_fields(o, table.drop_first(), at),
        }
    }
}

/// The first entry whose key is not in `names`, if any.
pub open spec fn extra_key_err(
    o: Seq<(Seq<char>, JsonV)>,
    names: Seq<Seq<char>>,
    at: Entity,
) -> Option<SchemaErrV>
    decreases o.len(),
{
    if o.len() == 0 {
        None
    } else if !names.contains(o[0].0) {
        Some(
            SchemaErrV {
                at,
                field: o[0].0,
                expected: Expected::NoSuchKey,
                found: Found::Present,
            },
        )
    } else {
        extra_key_err(o.drop_first(), names, at)
    }
}

/// The string a checked field holds.
pub open spec fn str_of(v: JsonV) -> Seq<char> {
    match v {
        JsonV::Str(t) => t,
        _ => Seq::empty(),
    }
}

/// The string a checked required-string field holds.
pub open spec fn got_str(o: Seq<(Seq<char>, JsonV)>, k: Seq<char>) -> Seq<char> {
    match lookup(o, k) {
        Some(v) => str_of(v),
        None => Seq::empty(),
    }
}

/// The value a checked optional-string field holds.
pub open spec fn got_opt_str(o: Seq<(Seq<char>, JsonV)>, k: Seq<char>) -> Option<Seq<char>> {
    match lookup(o, k) {
        Some(JsonV::Str(t)) => Some(t),
        _ => None,
    }
}

/// The value a checked boolean field holds.
pub open spec fn got_bool(o: Seq<(Seq<char>, JsonV)>, k: Seq<char>) -> bool {
    match lookup(o, k) {
        Some(JsonV::Bool(b)) => b,
        _ => false,
    }
}

/// The value a checked integer field holds.
pub open spec fn got_i64(o: Seq<(Seq<char>, JsonV)>, k: Seq<char>) -> i64 {
    match lookup(o, k) {
        Some(JsonV::Num(t)) => match int64_of(t) {
            Some(n) => n,
            None => 0,
        },
        _ => 0,
    }
}

/// The raw token of a checked number field.
pub open spec fn got_num(o: Seq<(Seq<char>, JsonV)>, k: Seq<char>) -> Seq<char> {
    match lookup(o, k) {
        Some(JsonV::Num(t)) => t,
        _ => Seq::empty(),
    }
}

/// The strings of a checked string-array field.
pub open spec fn str_items(vs: Seq<JsonV>) -> Seq<Seq<char>> {
    Seq::new(vs.len(), |i: int| str_of(vs[i]))
}

/// The value a checked string-array field holds.
pub open spec fn got_arr_str(o: Seq<(Seq<char>, JsonV)>, k: Seq<char>) -> Seq<Seq<char>> {
    match lookup(o, k) {
        Some(JsonV::Arr(vs)) => str_items(vs),
        _ => Seq::empty(),
    }
}

/// The scalar fields of the board.
pub open spec fn board_table() -> Seq<(Seq<char>, FKind)> {
    seq![
        ("id"@, FKind::FStr),
        ("nodeId"@, FKind::FStr),
        ("name"@, FKind::FStr),
        ("desc"@, FKind::FStr),
        ("closed"@, FKind::FBool),
        ("dateClosed"@, FKind::FOptStr),
        ("idOrganization"@, FKind::FOptStr),
        ("idEnterprise"@, FKind::FOptStr),
        ("pinned"@, FKind::FBool),
        ("starred"@, FKind::FBool),
        ("url"@, FKind::FStr),
        ("shortLink"@, FKind::FStr),
        ("subscribed"@, FKind::FBool),
        ("dateLastActivity"@, FKind::FStr),
        ("dateLastView"@, FKind::FStr),
        ("shortUrl"@, FKind::FStr),
        ("idTags"@, FKind::FArrStr),
        ("datePluginDisable"@, FKind::FOptStr),
        ("ixUpdate"@, FKind::FStr),
        ("enterpriseOwned"@, FKind::FBool),
        ("idBoardSource"@, FKind::FOptStr),
        ("premiumFeatures"@, FKind::FArrStr),
        ("idMemberCreator"@, FKind::FStr),
    ]
}

/// The scalar fields of a card.
pub open spec fn card_table() -> Seq<(Seq<char>, FKind)> {
    seq![
        ("id"@, FKind::FStr),
        ("closed"@, FKind::FBool),
        ("dueComplete"@, FKind::FBool),
        ("dateLastActivity"@, FKind::FStr),
        ("desc"@, FKind::FStr),
        ("dueReminder"@, FKind::FI64),
        ("email"@, FKind::FStr),
        ("idBoard"@, FKind::FStr),
        ("idChecklists"@, FKind::FArrStr),
        ("idLabels"@, FKind::FArrStr),
        ("idList"@, FKind::FStr),
        ("idMembers"@, FKind::FArrStr),
        ("idMembersVoted"@, FKind::FArrStr),
        ("idOrganization"@, FKind::FStr),
        ("idShort"@, FKind::FI64),
        ("idAttachmentCover"@, FKind::FOptStr),
        ("labels"@, FKind::FArrStr),
        ("locationName"@, FKind::FOptStr),
        ("manualCoverAttachment"@, FKind::FBool),
        ("name"@, FKind::FStr),
        ("nodeId"@, FKind::FStr),
        ("pos"@, FKind::FNum),
        ("shortLink"@, FKind::FStr),
        ("shortUrl"@, FKind::FStr),
        ("staticMapUrl"@, FKind::FOptStr),
        ("subscribed"@, FKind::FBool),
        ("url"@, FKind::FStr),
        ("isTemplate"@, FKind::FBool),
    ]
}

/// The scalar fields of a card's badges.
pub open spec fn badges_table() -> Seq<(Seq<char>, FKind)> {
    seq![
        ("location"@, FKind::FBool),
        ("votes"@, FKind::FI64),
        ("viewingMemberVoted"@, FKind::FBool),
        ("subscribed"@, FKind::FBool),
        ("checkItems"@, FKind::FI64),
        ("checkItemsChecked"@, FKind::FI64),
        ("checkItemsEarliestDue"@, FKind::FOptStr),
        ("comments"@, FKind::FI64),
        ("attachments"@, FKind::FI64),
        ("description"@, FKind::FBool),
        ("due"@, FKind::FOptStr),
        ("dueComplete"@, FKind::FBool),
        ("start"@, FKind::FOptStr),
    ]
}

/// The scalar fields of a cover.
pub open spec fn cover_table() -> Seq<(Seq<char>, FKind)> {
    seq![
        ("idAttachment"@, FKind::FOptStr),
        ("color"@, FKind::FOptStr),
        ("idUploadedBackground"@, FKind::FOptStr),
        ("size"@, FKind::FStr),
        ("brightness"@, FKind::FStr),
        ("edgeColor"@, FKind::FOptStr),
        ("idPlugin"@, FKind::FOptStr),
    ]
}

/// The scalar fields of a preview image.
pub open spec fn image_table() -> Seq<(Seq<char>, FKind)> {
    seq![
        ("id"@, FKind::FStr),
        ("scaled"@, FKind::FBool),
        ("url"@, FKind::FStr),
        ("bytes"@, FKind::FI64),
        ("height"@, FKind::FI64),
        ("width"@, FKind::FI64),
    ]
}

/// The scalar fields of an attachment.
pub open spec fn attachment_table() -> Seq<(Seq<char>, FKind)> {
    seq![
        ("id"@, FKind::FStr),
        ("bytes"@, FKind::FI64),
        ("date"@, FKind::FStr),
        ("edgeColor"@, FKind::FStr),
        ("idMember"@, FKind::FStr),
        ("isUpload"@, FKind::FBool),
        ("mimeType"@, FKind::FStr),
        ("name"@, FKind::FStr),
        ("url"@, FKind::FStr),
        ("pos"@, FKind::FNum),
        ("fileName"@, FKind::FStr),
    ]
}

/// The thirty label-color slots, in table order.
pub open spec fn labels_table() -> Seq<(Seq<char>, FKind)> {
    seq![
        ("green"@, FKind::FStr),
        ("yellow"@, FKind::FStr),
        ("orange"@, FKind::FStr),
        ("red"@, FKind::FStr),
        ("purple"@, FKind::FStr),
        ("blue"@, FKind::FStr),
        ("sky"@, FKind::FStr),
        ("lime"@, FKind::FStr),
        ("pink"@, FKind::FStr),
        ("black"@, FKind::FStr),
        ("green_dark"@, FKind::FStr),
        ("yellow_dark"@, FKind::FStr),
        ("orange_dark"@, FKind::FStr),
        ("red_dark"@, FKind::FStr),
        ("purple_dark"@, FKind::FStr),
        ("blue_dark"@, FKind::FStr),
        ("sky_dark"@, FKind::FStr),
        ("lime_dark"@, FKind::FStr),
        ("pink_dark"@, FKind::FStr),
        ("black_dark"@, FKind::FStr),
        ("green_light"@, FKind::FStr),
        ("yellow_light"@, FKind::FStr),
        ("orange_light"@, FKind::FStr),
        ("red_light"@, FKind::FStr),
        ("purple_light"@, FKind::FStr),
        ("blue_light"@, FKind::FStr),
        ("sky_light"@, FKind::FStr),
        ("lime_light"@, FKind::FStr),
        ("pink_light"@, FKind::FStr),
        ("black_light"@, FKind::FStr),
    ]
}

/// The key set of the label table.
pub open spec fn label_names() -> Seq<Seq<char>> {
    Seq::new(labels_table().len(), |i: int| labels_table()[i].0)
}

/// Validates the label table: all thirty keys as strings, no other key.
pub open spec fn sp_labels(o: Seq<(Seq<char>, JsonV)>) -> Result<LabelsV, SchemaErrV> {
    match check_fields(o, labels_table(), Entity::Labels) {
        Some(e) => Err(e),
        None => match extra_key_err(o, label_names(), Entity::Labels) {
            Some(e) => Err(e),
            None => Ok(
                LabelsV {
                    green: got_str(o, "green"@),
                    yellow: got_str(o, "yellow"@),
                    orange: got_str(o, "orange"@),
                    red: got_str(o, "red"@),
                    purple: got_str(o, "purple"@),
                    blue: got_str(o, "blue"@),
                    sky: got_str(o, "sky"@),
                    lime: got_str(o, "lime"@),
                    pink: got_str(o, "pink"@),
                    black: got_str(o, "black"@),
                    green_dark: got_str(o, "green_dark"@),
                    yellow_dark: got_str(o, "yellow_dark"@),
                    orange_dark: got_str(o, "orange_dark"@),
                    red_dark: got_str(o, "red_dark"@),
                    purple_dark: got_str(o, "purple_dark"@),
                    blue_dark: got_str(o, "blue_dark"@),
                    sky_dark: got_str(o, "sky_dark"@),
                    lime_dark: got_str(o, "lime_dark"@),
                    pink_dark: got_str(o, "pink_dark"@),
                    black_dark: got_str(o, "black_dark"@),
                    green_light: got_str(o, "green_light"@),
                    yellow_light: got_str(o, "yellow_light"@),
                    orange_light: got_str(o, "orange_light"@),
                    red_light: got_str(o, "red_light"@),
                    purple_light: got_str(o, "purple_light"@),
                    blue_light: got_str(o, "blue_light"@),
                    sky_light: got_str(o, "sky_light"@),
                    lime_light: got_str(o, "lime_light"@),
                    pink_light: got_str(o, "pink_light"@),
                    black_light: got_str(o, "black_light"@),
                },
            ),
        },
    }
}

/// Validates one preview image.
pub open spec fn sp_image(v: JsonV, at: Entity) -> Result<ImageV, SchemaErrV> {
    match v {
        JsonV::Obj(o) => match check_fields(o, image_table(), at) {
            Some(e) => Err(e),
            None => Ok(
                ImageV {
                    id: got_str(o, "id"@),
                    scaled: got_bool(o, "scaled"@),
                    url: got_str(o, "url"@),
                    bytes: got_i64(o, "bytes"@),
                    height: got_i64(o, "height"@),
                    width: got_i64(o, "width"@),
                },
            ),
        },
        x => Err(
            SchemaErrV {
                at,
                field: Seq::empty(),
                expected: Expected::ObjShape,
                found: found_of(x),
            },
        ),
    }
}

/// Validates the scaled renditions of a card's cover, lowest index first.
pub open spec fn sp_cover_images(vs: Seq<JsonV>, card: usize, j: usize) -> Result<
    Seq<ImageV>,
    SchemaErrV,
>
    decreases vs.len(),
{
    if vs.len() == 0 {
        Ok(Seq::empty())
    } else {
        match sp_image(vs[0], Entity::CoverImage(card, j)) {
            Err(e) => Err(e),
            Ok(img) => match sp_cover_images(vs.drop_first(), card, (j + 1) as usize) {
                Err(e) => Err(e),
                Ok(rest) => Ok(seq![img] + rest),
            },
        }
    }
}

/// Validates the previews of an attachment, lowest index first.
pub open spec fn sp_previews(vs: Seq<JsonV>, card: usize, att: usize, j: usize) -> Result<
    Seq<ImageV>,
    SchemaErrV,
>
    decreases vs.len(),
{
    if vs.len() == 0 {
        Ok(Seq::empty())
    } else {
        match sp_image(vs[0], Entity::Preview(card, att, j)) {
            Err(e) => Err(e),
            Ok(img) => match sp_previews(vs.drop_first(), card, att, (j + 1) as usize) {
                Err(e) => Err(e),
                Ok(rest) => Ok(seq![img] + rest),
            },
        }
    }
}

/// Validates a card's cover.
pub open spec fn sp_cover(o: Seq<(Seq<char>, JsonV)>, card: usize) -> Result<CoverV, SchemaErrV> {
    let at = Entity::Cover(card);
    match check_fields(o, cover_table(), at) {
        Some(e) => Err(e),
        None => {
            let scaled = match lookup(o, "scaled"@) {
                None => Ok(None),
                Some(JsonV::Null) => Ok(None),
                Some(JsonV::Arr(vs)) => match sp_cover_images(vs, card, 0) {
                    Err(e) => Err(e),
                    Ok(imgs) => Ok(Some(imgs)),
                },
                Some(x) => Err(
                    SchemaErrV {
                        at,
                        field: "scaled"@,
                        expected: Expected::ArrShape,
                        found: found_of(x),
                    },
                ),
            };
            match scaled {
                Err(e) => Err(e),
                Ok(sc) => Ok(
                    CoverV {
                        id_attachment: got_opt_str(o, "idAttachment"@),
                        color: got_opt_str(o, "color"@),
                        id_uploaded_background: got_opt_str(o, "idUploadedBackground"@),
                        size: got_str(o, "size"@),
                        brightness: got_str(o, "brightness"@),
                        scaled: sc,
                        edge_color: got_opt_str(o, "edgeColor"@),
                        id_plugin: got_opt_str(o, "idPlugin"@),
                    },
                ),
            }
        },
    }
}

/// Validates a card's badges.
pub open spec fn sp_badges(o: Seq<(Seq<char>, JsonV)>, card: usize) -> Result<
    BadgesV,
    SchemaErrV,
> {
    let at = Entity::Badges(card);
    match check_fields(o, badges_table(), at) {
        Some(e) => Err(e),
        None => match lookup(o, "attachmentsByType"@) {
            Some(JsonV::Obj(es)) => Ok(
                BadgesV {
                    attachments_by_type: es,
                    location: got_bool(o, "location"@),
                    votes: got_i64(o, "votes"@),
                    viewing_member_voted: got_bool(o, "viewingMemberVoted"@),
                    subscribed: got_bool(o, "subscribed"@),
                    check_items: got_i64(o, "checkItems"@),
                    check_items_checked: got_i64(o, "checkItemsChecked"@),
                    check_items_earliest_due: got_opt_str(o, "checkItemsEarliestDue"@),
                    comments: got_i64(o, "comments"@),
                    attachments: got_i64(o, "attachments"@),
                    description: got_bool(o, "description"@),
                    due: got_opt_str(o, "due"@),
                    due_complete: got_bool(o, "dueComplete"@),
                    start: got_opt_str(o, "start"@),
                },
            ),
            Some(x) => Err(
                SchemaErrV {
                    at,
                    field: "attachmentsByType"@,
                    expected: Expected::ObjShape,
                    found: found_of(x),
                },
            ),
            None => Err(
                SchemaErrV {
                    at,
                    field: "attachmentsByType"@,
                    expected: Expected::ObjShape,
                    found: Found::Absent,
                },
            ),
        },
    }
}

/// Validates one attachment.
pub open spec fn sp_attachment(v: JsonV, card: usize, att: usize) -> Result<
    AttachmentV,
    SchemaErrV,
> {
    let at = Entity::Attachment(card, att);
    match v {
        JsonV::Obj(o) => match check_fields(o, attachment_table(), at) {
            Some(e) => Err(e),
            None => {
                let previews = match lookup(o, "previews"@) {
                    Some(JsonV::Arr(vs)) => match sp_previews(vs, card, att, 0) {
                        Err(e) => Err(e),
                        Ok(imgs) => Ok(imgs),
                    },
                    Some(x) => Err(
                        SchemaErrV {
                            at,
                            field: "previews"@,
                            expected: Expected::ArrShape,
                            found: found_of(x),
                        },
                    ),
                    None => Err(
                        SchemaErrV {
                            at,
                            field: "previews"@,
                            expected: Expected::ArrShape,
                            found: Found::Absent,
                        },
                    ),
                };
                match previews {
                    Err(e) => Err(e),
                    Ok(imgs) => Ok(
                        AttachmentV {
                            id: got_str(o, "id"@),
                            bytes: got_i64(o, "bytes"@),
                            date: got_str(o, "date"@),
                            edge_color: got_str(o, "edgeColor"@),
                            id_member: got_str(o, "idMember"@),
                            is_upload: got_bool(o, "isUpload"@),
                            mime_type: got_str(o, "mimeType"@),
                            name: got_str(o, "name"@),
                            previews: imgs,
                            url: got_str(o, "url"@),
                            pos: got_num(o, "pos"@),
                            file_name: got_str(o, "fileName"@),
                        },
                    ),
                }
            },
        },
        x => Err(
            SchemaErrV {
                at,
                field: Seq::empty(),
                expected: Expected::ObjShape,
                found: found_of(x),
            },
        ),
    }
}

/// Validates a card's attachments, lowest index first.
pub open spec fn sp_attachments(vs: Seq<JsonV>, card: usize, j: usize) -> Result<
    Seq<AttachmentV>,
    SchemaErrV,
>
    decreases vs.len(),
{
    if vs.len() == 0 {
        Ok(Seq::empty())
    } else {
        match sp_attachment(vs[0], card, j) {
            Err(e) => Err(e),
            Ok(a) => match sp_attachments(vs.drop_first(), card, (j + 1) as usize) {
                Err(e) => Err(e),
                Ok(rest) => Ok(seq![a] + rest),
            },
        }
    }
}

/// Validates one card.
pub open spec fn sp_card(v: JsonV, idx: usize) -> Result<CardV, SchemaErrV> {
    let at = Entity::Card(idx);
    match v {
        JsonV::Obj(o) => match check_fields(o, card_table(), at) {
            Some(e) => Err(e),
            None => {
                let cover = match lookup(o, "cover"@) {
                    Some(JsonV::Obj(co)) => sp_cover(co, idx),
                    Some(x) => Err(
                        SchemaErrV {
                            at,
                            field: "cover"@,
                            expected: Expected::ObjShape,
                            found: found_of(x),
                        },
                    ),
                    None => Err(
                        SchemaErrV {
                            at,
                            field: "cover"@,
                            expected: Expected::ObjShape,
                            found: Found::Absent,
                        },
                    ),
                };
                match cover {
                    Err(e) => Err(e),
                    Ok(cv) => {
                        let atts = match lookup(o, "attachments"@) {
                            Some(JsonV::Arr(vs)) => sp_attachments(vs, idx, 0),
                            Some(x) => Err(
                                SchemaErrV {
                                    at,
                                    field: "attachments"@,
                                    expected: Expected::ArrShape,
                                    found: found_of(x),
                                },
                            ),
                            None => Err(
                                SchemaErrV {
                                    at,
                                    field: "attachments"@,
                                    expected: Expected::ArrShape,
                                    found: Found::Absent,
                                },
                            ),
                        };
                        match atts {
                            Err(e) => Err(e),
                            Ok(avs) => {
                                let badges = match lookup(o, "badges"@) {
                                    Some(JsonV::Obj(bo)) => sp_badges(bo, idx),
                                    Some(x) => Err(
                                        SchemaErrV {
                                            at,
                                            field: "badges"@,
                                            expected: Expected::ObjShape,
                                            found: found_of(x),
                                        },
                                    ),
                                    None => Err(
                                        SchemaErrV {
                                            at,
                                            field: "badges"@,
                                            expected: Expected::ObjShape,
                                            found: Found::Absent,
                                        },
                                    ),
                                };
                                match badges {
                                    Err(e) => Err(e),
                                    Ok(bv) => Ok(
                                        CardV {
                                            id: got_str(o, "id"@),
                                            badges: bv,
                                            closed: got_bool(o, "closed"@),
                                            due_complete: got_bool(o, "dueComplete"@),
                                            date_last_activity: got_str(o, "dateLastActivity"@),
                                            desc: got_str(o, "desc"@),
                                            due_reminder: got_i64(o, "dueReminder"@),
                                            email: got_str(o, "email"@),
                                            id_board: got_str(o, "idBoard"@),
                                            id_checklists: got_arr_str(o, "idChecklists"@),
                                            id_labels: got_arr_str(o, "idLabels"@),
                                            id_list: got_str(o, "idList"@),
                                            id_members: got_arr_str(o, "idMembers"@),
                                            id_members_voted: got_arr_str(o, "idMembersVoted"@),
                                            id_organization: got_str(o, "idOrganization"@),
                                            id_short: got_i64(o, "idShort"@),
                                            id_attachment_cover: got_opt_str(
                                                o,
                                                "idAttachmentCover"@,
                                            ),
                                            labels: got_arr_str(o, "labels"@),
                                            location_name: got_opt_str(o, "locationName"@),
                                            manual_cover_attachment: got_bool(
                                                o,
                                                "manualCoverAttachment"@,
                                            ),
                                            name: got_str(o, "name"@),
                                            node_id: got_str(o, "nodeId"@),
                                            pos: got_num(o, "pos"@),
                                            short_link: got_str(o, "shortLink"@),
                                            short_url: got_str(o, "shortUrl"@),
                                            static_map_url: got_opt_str(o, "staticMapUrl"@),
                                            subscribed: got_bool(o, "subscribed"@),
                                            url: got_str(o, "url"@),
                                            cover: cv,
                                            is_template: got_bool(o, "isTemplate"@),
                                            attachments: avs,
                                        },
                                    ),
                                }
                            },
                        }
                    },
                }
            },
        },
        x => Err(
            SchemaErrV {
                at,
                field: Seq::empty(),
                expected: Expected::ObjShape,
                found: found_of(x),
            },
        ),
    }
}

/// Validates the cards, lowest index first.
pub open spec fn sp_cards(vs: Seq<JsonV>, j: usize) -> Result<Seq<CardV>, SchemaErrV>
    decreases vs.len(),
{
    if vs.len() == 0 {
        Ok(Seq::empty())
    } else {
        match sp_card(vs[0], j) {
            Err(e) => Err(e),
            Ok(c) => match sp_cards(vs.drop_first(), (j + 1) as usize) {
                Err(e) => Err(e),
                Ok(rest) => Ok(seq![c] + rest),
            },
        }
    }
}

/// Validates a whole document against the board schema.
pub open spec fn sp_board(v: JsonV) -> Result<BoardV, SchemaErrV> {
    let at = Entity::Board;
    match v {
        JsonV::Obj(o) => match check_fields(o, board_table(), at) {
            Some(e) => Err(e),
            None => {
                let labels = match lookup(o, "labelNames"@) {
                    Some(JsonV::Obj(lo)) => sp_labels(lo),
                    Some(x) => Err(
                        SchemaErrV {
                            at,
                            field: "labelNames"@,
                            expected: Expected::ObjShape,
                            found: found_of(x),
                        },
                    ),
                    None => Err(
                        SchemaErrV {
                            at,
                            field: "labelNames"@,
                            expected: Expected::ObjShape,
                            found: Found::Absent,
                        },
                    ),
                };
                match labels {
                    Err(e) => Err(e),
                    Ok(lv) => {
                        let cards = match lookup(o, "cards"@) {
                            Some(JsonV::Arr(vs)) => sp_cards(vs, 0),
                            Some(x) => Err(
                                SchemaErrV {
                                    at,
                                    field: "cards"@,
                                    expected: Expected::ArrShape,
                                    found: found_of(x),
                                },
                            ),
                            None => Err(
                                SchemaErrV {
                                    at,
                                    field: "cards"@,
                                    expected: Expected::ArrShape,
                                    found: Found::Absent,
                                },
                            ),
                        };
                        match cards {
                            Err(e) => Err(e),
                            Ok(cvs) => Ok(
                                BoardV {
                                    id: got_str(o, "id"@),
                                    node_id: got_str(o, "nodeId"@),
                                    name: got_str(o, "name"@),
                                    desc: got_str(o, "desc"@),
                                    closed: got_bool(o, "closed"@),
                                    date_closed: got_opt_str(o, "dateClosed"@),
                                    id_organization: got_opt_str(o, "idOrganization"@),
                                    id_enterprise: got_opt_str(o, "idEnterprise"@),
                                    pinned: got_bool(o, "pinned"@),
                                    starred: got_bool(o, "starred"@),
                                    url: got_str(o, "url"@),
                                    short_link: got_str(o, "shortLink"@),
                                    subscribed: got_bool(o, "subscribed"@),
                                    label_names: lv,
                                    date_last_activity: got_str(o, "dateLastActivity"@),
                                    date_last_view: got_str(o, "dateLastView"@),
                                    short_url: got_str(o, "shortUrl"@),
                                    id_tags: got_arr_str(o, "idTags"@),
                                    date_plugin_disable: got_opt_str(o, "datePluginDisable"@),
                                    ix_update: got_str(o, "ixUpdate"@),
                                    enterprise_owned: got_bool(o, "enterpriseOwned"@),
                                    id_board_source: got_opt_str(o, "idBoardSource"@),
                                    premium_features: got_arr_str(o, "premiumFeatures"@),
                                    id_member_creator: got_str(o, "idMemberCreator"@),
                                    cards: cvs,
                                },
                            ),
                        }
                    },
                }
            },
        },
        x => Err(
            SchemaErrV {
                at,
                field: Seq::empty(),
                expected: Expected::ObjShape,
                found: found_of(x),
            },
        ),
    }
}

} // verus!
