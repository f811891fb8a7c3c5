//! The general properties of the parser, stated and proved once for all
//! inputs.

use vstd::prelude::*;

use crate::error::{Entity, ErrV, Found, SchemaErrV};
use crate::model::{AttachmentV, BoardV, CardV};
use crate::num::int64_of;
use crate::schema::{
    attachment_table, badges_table, board_table, card_table, check_fields, extra_key_err,
    kind_err, label_names, labels_table, sp_attachments, sp_badges, sp_board, sp_card, sp_cards,
    sp_labels, FKind,
};
use crate::sp_parse;
use crate::value::{lemma_lookup_strip, lemma_lookup_strip_self, lookup, strip, JsonV};

verus! {

/// Parsing the same input twice yields field-for-field equal results: the
/// whole parse is a function of the input bytes alone.
pub proof fn lemma_parse_repeatable(
    bytes: Seq<u8>,
    r1: Result<BoardV, ErrV>,
    r2: Result<BoardV, ErrV>,
)
    requires
        r1 == sp_parse(bytes),
        r2 == sp_parse(bytes),
    ensures
        r1 == r2,
{
}



/// The cards of the model mirror the input array index for index: element
/// `i` of the array yields card `i` of the model, so document order is kept
/// exactly.
pub proof fn lemma_card_order(vs: Seq<JsonV>, j: usize, cs: Seq<CardV>)
    requires
        sp_cards(vs, j) == Ok::<_, SchemaErrV>(cs),
        j + vs.len() <= usize::MAX,
    ensures
        cs.len() == vs.len(),
        forall|i: int|
            0 <= i < vs.len() ==> sp_card(vs[i], (j + i) as usize) == Ok::<_, SchemaErrV>(
                #[trigger] cs[i],
            ),
    decreases vs.len(),
{
    if vs.len() > 0 {
        match sp_card(vs[0], j) {
            Ok(c) => {
                match sp_cards(vs.drop_first(), (j + 1) as usize) {
                    Ok(rest) => {
                        lemma_card_order(vs.drop_first(), (j + 1) as usize, rest);
                        assert(cs == seq![c] + rest);
                        assert forall|i: int|
                            0 <= i < vs.len() implies sp_card(vs[i], (j + i) as usize) == Ok::<
                            _,
                            SchemaErrV,
                        >(#[trigger] cs[i]) by {
                            if i > 0 {
                                assert(vs.drop_first()[i - 1] == vs[i]);
                                assert(cs[i] == rest[i - 1]);
                                assert(((j + 1) as usize + (i - 1)) as usize == (j + i) as usize);
                            }
                        }
                    },
                    Err(_) => {
                        assert(false);
                    },
                }
            },
            Err(_) => {
                assert(false);
            },
        }
    }
}

/// The attachments of a card mirror the input array index for index, so
/// document order is kept exactly.
pub proof fn lemma_attachment_order(vs: Seq<JsonV>, card: usize, j: usize, avs: Seq<AttachmentV>)
    requires
        sp_attachments(vs, card, j) == Ok::<_, SchemaErrV>(avs),
        j + vs.len() <= usize::MAX,
    ensures
        avs.len() == vs.len(),
        forall|i: int|
            0 <= i < vs.len() ==> crate::schema::sp_attachment(vs[i], card, (j + i) as usize)
                == Ok::<_, SchemaErrV>(#[trigger] avs[i]),
    decreases vs.len(),
{
    if vs.len() > 0 {
        match crate::schema::sp_attachment(vs[0], card, j) {
            Ok(a) => {
                match sp_attachments(vs.drop_first(), card, (j + 1) as usize) {
                    Ok(rest) => {
                        lemma_attachment_order(vs.drop_first(), card, (j + 1) as usize, rest);
                        assert(avs == seq![a] + rest);
                        assert forall|i: int|
                            0 <= i < vs.len() implies crate::schema::sp_attachment(
                            vs[i],
                            card,
                            (j + i) as usize,
                        ) == Ok::<_, SchemaErrV>(#[trigger] avs[i]) by {
                            if i > 0 {
                                assert(vs.drop_first()[i - 1] == vs[i]);
                                assert(avs[i] == rest[i - 1]);
                                assert(((j + 1) as usize + (i - 1)) as usize == (j + i) as usize);
                            }
                        }
                    },
                    Err(_) => {
                        assert(false);
                    },
                }
            },
            Err(_) => {
                assert(false);
            },
        }
    }
}

/// A parsed card keeps `dueReminder` verbatim: the model holds exactly the
/// integer the document's token denotes.
pub proof fn lemma_due_reminder_verbatim(
    o: Seq<(Seq<char>, JsonV)>,
    idx: usize,
    c: CardV,
    t: Seq<char>,
)
    requires
        sp_card(JsonV::Obj(o), idx) == Ok::<_, SchemaErrV>(c),
        lookup(o, "dueReminder"@) == Some(JsonV::Num(t)),
    ensures
        int64_of(t) == Some(c.due_reminder),
{
    assert(check_fields(o, card_table(), Entity::Card(idx)) is None);
    crate::decode::lemma_fields_all(o, card_table(), Entity::Card(idx));
    assert(card_table()[5] == ("dueReminder"@, crate::schema::FKind::FI64));
    assert(kind_err(lookup(o, "dueReminder"@), crate::schema::FKind::FI64) is None);
    assert(int64_of(t) is Some);
}

/// The sentinel `-1` in `dueReminder` is preserved as `-1`, not normalised.
pub proof fn lemma_due_reminder_sentinel(o: Seq<(Seq<char>, JsonV)>, idx: usize, c: CardV)
    requires
        sp_card(JsonV::Obj(o), idx) == Ok::<_, SchemaErrV>(c),
        lookup(o, "dueReminder"@) == Some(JsonV::Num("-1"@)),
    ensures
        c.due_reminder == -1,
{
    reveal_strlit("-1");
    let t = "-1"@;
    assert(t.len() == 2);
    assert(t[0] == '-');
    assert(t.skip(1) =~= seq!['1']);
    assert(crate::num::all_digits(t.skip(1))) by {
        assert(t.skip(1)[0] == '1');
        assert('1' as u32 == 49);
    }
    assert(crate::num::digits_val(seq!['1']) == 1) by {
        assert(seq!['1'].drop_last() =~= Seq::<char>::empty());
        assert(crate::num::digits_val(Seq::<char>::empty()) == 0);
        assert('1' as u32 == 49);
    }
    assert(crate::num::int_token_val(t) == Some(-1int));
    assert(int64_of(t) == Some(-1i64));
    lemma_due_reminder_verbatim(o, idx, c, t);
}



/// If a table passes on `o`, then with every entry of one required field
/// removed, the first table error names exactly that field, as absent.
proof fn lemma_check_fields_strip(
    o: Seq<(Seq<char>, JsonV)>,
    table: Seq<(Seq<char>, FKind)>,
    at: Entity,
    name: Seq<char>,
    k: FKind,
)
    requires
        check_fields(o, table, at) is None,
        table.contains((name, k)),
        k != FKind::FOptStr,
    ensures
        check_fields(strip(o, name), table, at) matches Some(e) && e.at == at && e.field == name
            && e.found == Found::Absent,
    decreases table.len(),
{
    let idx = choose|idx: int| 0 <= idx < table.len() && table[idx] == (name, k);
    let n0 = table[0].0;
    let k0 = table[0].1;
    if n0 == name {
        lemma_lookup_strip_self(o, name);
        if k0 != FKind::FOptStr {
        } else {
            assert(idx != 0);
            assert(table.drop_first().contains((name, k))) by {
                assert(table.drop_first()[idx - 1] == (name, k));
            }
            lemma_check_fields_strip(o, table.drop_first(), at, name, k);
        }
    } else {
        lemma_lookup_strip(o, name, n0);
        assert(kind_err(lookup(strip(o, name), n0), k0) == kind_err(lookup(o, n0), k0));
        assert(idx != 0);
        assert(table.drop_first().contains((name, k))) by {
            assert(table.drop_first()[idx - 1] == (name, k));
        }
        lemma_check_fields_strip(o, table.drop_first(), at, name, k);
    }
}

/// Removing a required scalar field from a successfully parsed board makes
/// the parse fail with a schema error naming exactly that field.
pub proof fn lemma_missing_required_field(o: Seq<(Seq<char>, JsonV)>, name: Seq<char>, k: FKind)
    requires
        sp_board(JsonV::Obj(o)) is Ok,
        board_table().contains((name, k)),
        k != FKind::FOptStr,
    ensures
        sp_board(JsonV::Obj(strip(o, name))) matches Err(e) && e.at == Entity::Board && e.field
            == name && e.found == Found::Absent,
{
    assert(check_fields(o, board_table(), Entity::Board) is None);
    lemma_check_fields_strip(o, board_table(), Entity::Board, name, k);
}

/// Removing one of the thirty label keys from a label table that parsed
/// makes it fail, naming that key as absent.
pub proof fn lemma_missing_label_key(lo: Seq<(Seq<char>, JsonV)>, name: Seq<char>)
    requires
        sp_labels(lo) is Ok,
        labels_table().contains((name, FKind::FStr)),
    ensures
        sp_labels(strip(lo, name)) matches Err(e) && e.at == Entity::Labels && e.field == name
            && e.found == Found::Absent,
{
    assert(check_fields(lo, labels_table(), Entity::Labels) is None);
    lemma_check_fields_strip(lo, labels_table(), Entity::Labels, name, FKind::FStr);
}

/// An object with at least one key outside a name set has an extra-key
/// error.
proof fn lemma_extra_some(o: Seq<(Seq<char>, JsonV)>, names: Seq<Seq<char>>, at: Entity)
    requires
        exists|i: int| 0 <= i < o.len() && !names.contains((#[trigger] o[i]).0),
    ensures
        extra_key_err(o, names, at) is Some,
    decreases o.len(),
{
    let w = choose|i: int| 0 <= i < o.len() && !names.contains((#[trigger] o[i]).0);
    if names.contains(o[0].0) {
        assert(w != 0);
        assert(!names.contains(o.drop_first()[w - 1].0));
        lemma_extra_some(o.drop_first(), names, at);
    }
}

/// A label table with a key outside the thirty slots never parses.
pub proof fn lemma_extra_label_key(lo: Seq<(Seq<char>, JsonV)>)
    requires
        exists|i: int| 0 <= i < lo.len() && !label_names().contains((#[trigger] lo[i]).0),
    ensures
        sp_labels(lo) is Err,
{
    if check_fields(lo, labels_table(), Entity::Labels) is None {
        lemma_extra_some(lo, label_names(), Entity::Labels);
    }
}

/// A board object whose scalar fields and label table check out and whose
/// card array is empty parses successfully, to a board with no cards.
pub proof fn lemma_minimal_board(o: Seq<(Seq<char>, JsonV)>, lo: Seq<(Seq<char>, JsonV)>)
    requires
        check_fields(o, board_table(), Entity::Board) is None,
        lookup(o, "labelNames"@) == Some(JsonV::Obj(lo)),
        sp_labels(lo) is Ok,
        lookup(o, "cards"@) == Some(JsonV::Arr(Seq::<JsonV>::empty())),
    ensures
        sp_board(JsonV::Obj(o)) matches Ok(b) && b.cards.len() == 0,
{
    assert(sp_cards(Seq::<JsonV>::empty(), 0) == Ok::<_, SchemaErrV>(Seq::<CardV>::empty()));
}



/// A key the board schema names: one of the scalar fields, the label table
/// or the card list.
pub open spec fn board_known(k: Seq<char>) -> bool {
    ||| exists|i: int| 0 <= i < board_table().len() && (#[trigger] board_table()[i]).0 == k
    ||| k == "labelNames"@
    ||| k == "cards"@
}

/// Stripping a key that a table does not list leaves its check unchanged.
proof fn lemma_check_fields_strip_other(
    o: Seq<(Seq<char>, JsonV)>,
    table: Seq<(Seq<char>, FKind)>,
    at: Entity,
    k: Seq<char>,
)
    requires
        forall|i: int| 0 <= i < table.len() ==> (#[trigger] table[i]).0 != k,
    ensures
        check_fields(strip(o, k), table, at) == check_fields(o, table, at),
    decreases table.len(),
{
    if table.len() > 0 {
        lemma_lookup_strip(o, k, table[0].0);
        assert forall|i: int|
            0 <= i < table.drop_first().len() implies (#[trigger] table.drop_first()[i]).0
            != k by {
            assert(table.drop_first()[i] == table[i + 1]);
        }
        lemma_check_fields_strip_other(o, table.drop_first(), at, k);
    }
}

/// A key the schema does not name never affects the outcome: a board object
/// parses exactly as it does with every entry of that key removed, whatever
/// value those entries hold.
#[verifier::rlimit(60)]
pub proof fn lemma_unknown_field_ignored(o: Seq<(Seq<char>, JsonV)>, k: Seq<char>)
    requires
        !board_known(k),
    ensures
        sp_board(JsonV::Obj(strip(o, k))) == sp_board(JsonV::Obj(o)),
{
    assert forall|i: int|
        0 <= i < board_table().len() implies (#[trigger] board_table()[i]).0 != k by {}
    lemma_check_fields_strip_other(o, board_table(), Entity::Board, k);
    lemma_lookup_strip(o, k, "labelNames"@);
    lemma_lookup_strip(o, k, "cards"@);
    assert(board_table()[0].0 == "id"@);
    lemma_lookup_strip(o, k, "id"@);
    assert(board_table()[1].0 == "nodeId"@);
    lemma_lookup_strip(o, k, "nodeId"@);
    assert(board_table()[2].0 == "name"@);
    lemma_lookup_strip(o, k, "name"@);
    assert(board_table()[3].0 == "desc"@);
    lemma_lookup_strip(o, k, "desc"@);
    assert(board_table()[4].0 == "closed"@);
    lemma_lookup_strip(o, k, "closed"@);
    assert(board_table()[5].0 == "dateClosed"@);
    lemma_lookup_strip(o, k, "dateClosed"@);
    assert(board_table()[6].0 == "idOrganization"@);
    lemma_lookup_strip(o, k, "idOrganization"@);
    assert(board_table()[7].0 == "idEnterprise"@);
    lemma_lookup_strip(o, k, "idEnterprise"@);
    assert(board_table()[8].0 == "pinned"@);
    lemma_lookup_strip(o, k, "pinned"@);
    assert(board_table()[9].0 == "starred"@);
    lemma_lookup_strip(o, k, "starred"@);
    assert(board_table()[10].0 == "url"@);
    lemma_lookup_strip(o, k, "url"@);
    assert(board_table()[11].0 == "shortLink"@);
    lemma_lookup_strip(o, k, "shortLink"@);
    assert(board_table()[12].0 == "subscribed"@);
    lemma_lookup_strip(o, k, "subscribed"@);
    assert(board_table()[13].0 == "dateLastActivity"@);
    lemma_lookup_strip(o, k, "dateLastActivity"@);
    assert(board_table()[14].0 == "dateLastView"@);
    lemma_lookup_strip(o, k, "dateLastView"@);
    assert(board_table()[15].0 == "shortUrl"@);
    lemma_lookup_strip(o, k, "shortUrl"@);
    assert(board_table()[16].0 == "idTags"@);
    lemma_lookup_strip(o, k, "idTags"@);
    assert(board_table()[17].0 == "datePluginDisable"@);
    lemma_lookup_strip(o, k, "datePluginDisable"@);
    assert(board_table()[18].0 == "ixUpdate"@);
    lemma_lookup_strip(o, k, "ixUpdate"@);
    assert(board_table()[19].0 == "enterpriseOwned"@);
    lemma_lookup_strip(o, k, "enterpriseOwned"@);
    assert(board_table()[20].0 == "idBoardSource"@);
    lemma_lookup_strip(o, k, "idBoardSource"@);
    assert(board_table()[21].0 == "premiumFeatures"@);
    lemma_lookup_strip(o, k, "premiumFeatures"@);
    assert(board_table()[22].0 == "idMemberCreator"@);
    lemma_lookup_strip(o, k, "idMemberCreator"@);
}



/// Removing a required scalar field from a card that parsed makes the card
/// fail with a schema error naming that field and the card's index.
pub proof fn lemma_missing_card_field(
    o: Seq<(Seq<char>, JsonV)>,
    idx: usize,
    name: Seq<char>,
    k: FKind,
)
    requires
        sp_card(JsonV::Obj(o), idx) is Ok,
        card_table().contains((name, k)),
        k != FKind::FOptStr,
    ensures
        sp_card(JsonV::Obj(strip(o, name)), idx) matches Err(e) && e.at == Entity::Card(idx)
            && e.field == name && e.found == Found::Absent,
{
    assert(check_fields(o, card_table(), Entity::Card(idx)) is None);
    lemma_check_fields_strip(o, card_table(), Entity::Card(idx), name, k);
}

/// Removing a required scalar field from an attachment that parsed makes it
/// fail with a schema error naming that field and the attachment's place.
pub proof fn lemma_missing_attachment_field(
    o: Seq<(Seq<char>, JsonV)>,
    card: usize,
    att: usize,
    name: Seq<char>,
    k: FKind,
)
    requires
        crate::schema::sp_attachment(JsonV::Obj(o), card, att) is Ok,
        attachment_table().contains((name, k)),
        k != FKind::FOptStr,
    ensures
        crate::schema::sp_attachment(JsonV::Obj(strip(o, name)), card, att) matches Err(e)
            && e.at == Entity::Attachment(card, att) && e.field == name && e.found
            == Found::Absent,
{
    assert(check_fields(o, attachment_table(), Entity::Attachment(card, att)) is None);
    lemma_check_fields_strip(o, attachment_table(), Entity::Attachment(card, att), name, k);
}

/// A key the card schema names: one of the scalar fields, the badges, the
/// cover or the attachment list.
pub open spec fn card_known(k: Seq<char>) -> bool {
    ||| exists|i: int| 0 <= i < card_table().len() && (#[trigger] card_table()[i]).0 == k
    ||| k == "badges"@
    ||| k == "cover"@
    ||| k == "attachments"@
}

/// A key the card schema does not name never affects a card's outcome.
#[verifier::rlimit(80)]
pub proof fn lemma_unknown_card_field_ignored(o: Seq<(Seq<char>, JsonV)>, idx: usize, k: Seq<char>)
    requires
        !card_known(k),
    ensures
        sp_card(JsonV::Obj(strip(o, k)), idx) == sp_card(JsonV::Obj(o), idx),
{
    assert forall|i: int|
        0 <= i < card_table().len() implies (#[trigger] card_table()[i]).0 != k by {}
    lemma_check_fields_strip_other(o, card_table(), Entity::Card(idx), k);
    lemma_lookup_strip(o, k, "badges"@);
    lemma_lookup_strip(o, k, "cover"@);
    lemma_lookup_strip(o, k, "attachments"@);
    assert(card_table()[0].0 == "id"@);
    lemma_lookup_strip(o, k, "id"@);
    assert(card_table()[1].0 == "closed"@);
    lemma_lookup_strip(o, k, "closed"@);
    assert(card_table()[2].0 == "dueComplete"@);
    lemma_lookup_strip(o, k, "dueComplete"@);
    assert(card_table()[3].0 == "dateLastActivity"@);
    lemma_lookup_strip(o, k, "dateLastActivity"@);
    assert(card_table()[4].0 == "desc"@);
    lemma_lookup_strip(o, k, "desc"@);
    assert(card_table()[5].0 == "dueReminder"@);
    lemma_lookup_strip(o, k, "dueReminder"@);
    assert(card_table()[6].0 == "email"@);
    lemma_lookup_strip(o, k, "email"@);
    assert(card_table()[7].0 == "idBoard"@);
    lemma_lookup_strip(o, k, "idBoard"@);
    assert(card_table()[8].0 == "idChecklists"@);
    lemma_lookup_strip(o, k, "idChecklists"@);
    assert(card_table()[9].0 == "idLabels"@);
    lemma_lookup_strip(o, k, "idLabels"@);
    assert(card_table()[10].0 == "idList"@);
    lemma_lookup_strip(o, k, "idList"@);
    assert(card_table()[11].0 == "idMembers"@);
    lemma_lookup_strip(o, k, "idMembers"@);
    assert(card_table()[12].0 == "idMembersVoted"@);
    lemma_lookup_strip(o, k, "idMembersVoted"@);
    assert(card_table()[13].0 == "idOrganization"@);
    lemma_lookup_strip(o, k, "idOrganization"@);
    assert(card_table()[14].0 == "idShort"@);
    lemma_lookup_strip(o, k, "idShort"@);
    assert(card_table()[15].0 == "idAttachmentCover"@);
    lemma_lookup_strip(o, k, "idAttachmentCover"@);
    assert(card_table()[16].0 == "labels"@);
    lemma_lookup_strip(o, k, "labels"@);
    assert(card_table()[17].0 == "locationName"@);
    lemma_lookup_strip(o, k, "locationName"@);
    assert(card_table()[18].0 == "manualCoverAttachment"@);
    lemma_lookup_strip(o, k, "manualCoverAttachment"@);
    assert(card_table()[19].0 == "name"@);
    lemma_lookup_strip(o, k, "name"@);
    assert(card_table()[20].0 == "nodeId"@);
    lemma_lookup_strip(o, k, "nodeId"@);
    assert(card_table()[21].0 == "pos"@);
    lemma_lookup_strip(o, k, "pos"@);
    assert(card_table()[22].0 == "shortLink"@);
    lemma_lookup_strip(o, k, "shortLink"@);
    assert(card_table()[23].0 == "shortUrl"@);
    lemma_lookup_strip(o, k, "shortUrl"@);
    assert(card_table()[24].0 == "staticMapUrl"@);
    lemma_lookup_strip(o, k, "staticMapUrl"@);
    assert(card_table()[25].0 == "subscribed"@);
    lemma_lookup_strip(o, k, "subscribed"@);
    assert(card_table()[26].0 == "url"@);
    lemma_lookup_strip(o, k, "url"@);
    assert(card_table()[27].0 == "isTemplate"@);
    lemma_lookup_strip(o, k, "isTemplate"@);
}

/// A key the badges schema names: one of the scalar fields or the free-form
/// attachment-count mapping.
pub open spec fn badges_known(k: Seq<char>) -> bool {
    ||| exists|i: int| 0 <= i < badges_table().len() && (#[trigger] badges_table()[i]).0 == k
    ||| k == "attachmentsByType"@
}

/// A key the badges schema does not name never affects the badges' outcome.
pub proof fn lemma_unknown_badges_field_ignored(
    o: Seq<(Seq<char>, JsonV)>,
    idx: usize,
    k: Seq<char>,
)
    requires
        !badges_known(k),
    ensures
        sp_badges(strip(o, k), idx) == sp_badges(o, idx),
{
    assert forall|i: int|
        0 <= i < badges_table().len() implies (#[trigger] badges_table()[i]).0 != k by {}
    lemma_check_fields_strip_other(o, badges_table(), Entity::Badges(idx), k);
    lemma_lookup_strip(o, k, "attachmentsByType"@);
    assert(badges_table()[0].0 == "location"@);
    lemma_lookup_strip(o, k, "location"@);
    assert(badges_table()[1].0 == "votes"@);
    lemma_lookup_strip(o, k, "votes"@);
    assert(badges_table()[2].0 == "viewingMemberVoted"@);
    lemma_lookup_strip(o, k, "viewingMemberVoted"@);
    assert(badges_table()[3].0 == "subscribed"@);
    lemma_lookup_strip(o, k, "subscribed"@);
    assert(badges_table()[4].0 == "checkItems"@);
    lemma_lookup_strip(o, k, "checkItems"@);
    assert(badges_table()[5].0 == "checkItemsChecked"@);
    lemma_lookup_strip(o, k, "checkItemsChecked"@);
    assert(badges_table()[6].0 == "checkItemsEarliestDue"@);
    lemma_lookup_strip(o, k, "checkItemsEarliestDue"@);
    assert(badges_table()[7].0 == "comments"@);
    lemma_lookup_strip(o, k, "comments"@);
    assert(badges_table()[8].0 == "attachments"@);
    lemma_lookup_strip(o, k, "attachments"@);
    assert(badges_table()[9].0 == "description"@);
    lemma_lookup_strip(o, k, "description"@);
    assert(badges_table()[10].0 == "due"@);
    lemma_lookup_strip(o, k, "due"@);
    assert(badges_table()[11].0 == "dueComplete"@);
    lemma_lookup_strip(o, k, "dueComplete"@);
    assert(badges_table()[12].0 == "start"@);
    lemma_lookup_strip(o, k, "start"@);
}

} // verus!
