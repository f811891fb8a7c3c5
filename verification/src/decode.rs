//! The executable schema validator: turns a decoded JSON tree into the
//! board model, returning exactly what the schema ([`crate::schema`]) says.

use vstd::prelude::*;

use crate::error::{found_of, Entity, Expected, Found, SchemaError};
use crate::model::{
    images_v, strs_v, Attachment, Badges, Board, BoardLabels, Card, Cover, Image,
};
use crate::num::{all_digits, i64_of_token, int_token_val};
use crate::schema::{
    arr_str_err, attachment_table, badges_table, board_table, card_table, check_fields,
    cover_table, extra_key_err, got_arr_str, image_table, kind_err, label_names, labels_table,
    sp_attachments, sp_board, sp_card, sp_cards, sp_cover, sp_cover_images, sp_image, sp_labels,
    sp_previews, sp_badges, str_items, FKind,
};
use crate::text::is_digit;
use crate::value::{
    arr_v, entries_v, find_key, json_v, lemma_arr_v, lemma_entries_v, lookup, Json, JsonV,
};

verus! {

/// The mathematical value of a scalar-field table.
pub open spec fn ktable_v(es: Seq<(String, FKind)>) -> Seq<(Seq<char>, FKind)>
    decreases es,
{
    if es.len() == 0 {
        Seq::empty()
    } else {
        seq![(es[0].0@, es[0].1)] + ktable_v(es.subrange(1, es.len() as int))
    }
}

/// [`ktable_v`] maps the sequence pointwise.
pub proof fn lemma_ktable_v(es: Seq<(String, FKind)>)
    ensures
        ktable_v(es).len() == es.len(),
        forall|i: int| #![auto] 0 <= i < es.len() ==> ktable_v(es)[i] == (es[i].0@, es[i].1),
    decreases es.len(),
{
    if es.len() != 0 {
        lemma_ktable_v(es.subrange(1, es.len() as int));
    }
}

/// A passed table check means every listed field passed.
pub proof fn lemma_fields_all(
    o: Seq<(Seq<char>, JsonV)>,
    table: Seq<(Seq<char>, FKind)>,
    at: Entity,
)
    requires
        check_fields(o, table, at) is None,
    ensures
        forall|j: int|
            0 <= j < table.len() ==> kind_err(lookup(o, (#[trigger] table[j]).0), table[j].1)
                is None,
    decreases table.len(),
{
    if table.len() > 0 {
        lemma_fields_all(o, table.drop_first(), at);
        assert forall|j: int|
            0 <= j < table.len() implies kind_err(
            lookup(o, (#[trigger] table[j]).0),
            table[j].1,
        ) is None by {
            if j > 0 {
                assert(table.drop_first()[j - 1] == table[j]);
            }
        }
    }
}

/// Scanning past passing fields does not change the first table error.
proof fn lemma_fields_scan(
    o: Seq<(Seq<char>, JsonV)>,
    table: Seq<(Seq<char>, FKind)>,
    at: Entity,
    i: int,
)
    requires
        0 <= i <= table.len(),
        forall|j: int| 0 <= j < i ==> kind_err(lookup(o, (#[trigger] table[j]).0), table[j].1)
            is None,
    ensures
        check_fields(o, table, at) == check_fields(o, table.skip(i), at),
    decreases i,
{
    if i > 0 {
        lemma_fields_scan(o, table, at, i - 1);
        assert(table.skip(i - 1)[0] == table[i - 1]);
        assert(table.skip(i - 1).drop_first() =~= table.skip(i));
    } else {
        assert(table.skip(0) =~= table);
    }
}

/// Scanning past string elements does not change the first array error.
proof fn lemma_arr_str_scan(vs: Seq<JsonV>, i: int)
    requires
        0 <= i <= vs.len(),
        forall|j: int| 0 <= j < i ==> (#[trigger] vs[j]) is Str,
    ensures
        arr_str_err(vs) == arr_str_err(vs.skip(i)),
    decreases i,
{
    if i > 0 {
        lemma_arr_str_scan(vs, i - 1);
        assert(vs.skip(i - 1)[0] == vs[i - 1]);
        assert(vs.skip(i - 1).drop_first() =~= vs.skip(i));
    } else {
        assert(vs.skip(0) =~= vs);
    }
}

/// A passed array check means every element is a string.
proof fn lemma_arr_str_all(vs: Seq<JsonV>)
    requires
        arr_str_err(vs) is None,
    ensures
        forall|j: int| 0 <= j < vs.len() ==> (#[trigger] vs[j]) is Str,
    decreases vs.len(),
{
    if vs.len() > 0 {
        lemma_arr_str_all(vs.drop_first());
        assert forall|j: int| 0 <= j < vs.len() implies (#[trigger] vs[j]) is Str by {
            if j > 0 {
                assert(vs.drop_first()[j - 1] == vs[j]);
            }
        }
    }
}

/// Scanning past known keys does not change the first extra-key error.
proof fn lemma_extra_scan(
    o: Seq<(Seq<char>, JsonV)>,
    names: Seq<Seq<char>>,
    at: Entity,
    i: int,
)
    requires
        0 <= i <= o.len(),
        forall|j: int| 0 <= j < i ==> names.contains((#[trigger] o[j]).0),
    ensures
        extra_key_err(o, names, at) == extra_key_err(o.skip(i), names, at),
    decreases i,
{
    if i > 0 {
        lemma_extra_scan(o, names, at, i - 1);
        assert(o.skip(i - 1)[0] == o[i - 1]);
        assert(o.skip(i - 1).drop_first() =~= o.skip(i));
    } else {
        assert(o.skip(0) =~= o);
    }
}

/// Executable mirror of [`found_of`].
fn found_of_c(j: &Json) -> (r: Found)
    ensures
        r == found_of(json_v(*j)),
{
    match j {
        Json::Null => Found::NullKind,
        Json::Bool(_) => Found::BoolKind,
        Json::Num(_) => Found::NumberKind,
        Json::Str(_) => Found::StrKind,
        Json::Arr(_) => Found::ArrKind,
        Json::Obj(_) => Found::ObjKind,
    }
}

/// Whether a token has the shape of an integer.
fn int_shape(t: &Vec<char>) -> (r: bool)
    ensures
        r == (int_token_val(t@) is Some),
{
    if t.len() == 0 {
        return false;
    }
    let neg = t.len() >= 2 && t[0] == '-';
    let start: usize = if neg {
        1
    } else {
        0
    };
    let mut k = start;
    while k < t.len()
        invariant
            start <= k <= t.len(),
            start <= t.len(),
            neg == (t@.len() >= 2 && t@[0] == '-'),
            neg ==> start == 1,
            !neg ==> start == 0,
            forall|i: int| start <= i < k ==> is_digit(#[trigger] t@[i]),
        decreases t.len() - k,
    {
        if !(48 <= t[k] as u32 && t[k] as u32 <= 57) {
            proof {
                assert(!is_digit(t@[k as int]));
                if neg {
                    let ki: int = k as int;
                    assert(0 <= ki - 1 < t@.skip(1).len());
                    assert(t@.skip(1)[ki - 1] == t@[ki - 1 + 1]);
                    assert(!is_digit(t@.skip(1)[ki - 1]));
                    assert(!all_digits(t@.skip(1)));
                    assert(!is_digit('-')) by {
                        assert('-' as u32 == 45);
                    }
                    assert(!all_digits(t@));
                } else {
                    assert(!all_digits(t@));
                    if t.len() >= 2 && t@[0] == '-' {
                        assert(!is_digit('-')) by {
                            assert('-' as u32 == 45);
                        }
                    }
                }
            }
            return false;
        }
        k = k + 1;
    }
    proof {
        if neg {
            assert(all_digits(t@.skip(1))) by {
                assert(forall|i: int|
                    0 <= i < t@.skip(1).len() ==> #[trigger] t@.skip(1)[i] == t@[i + 1]);
            }
        } else {
            if t.len() >= 2 && t@[0] == '-' {
                assert(is_digit(t@[0]));
                assert(false) by {
                    assert('-' as u32 == 45);
                }
            }
            assert(all_digits(t@));
        }
    }
    true
}

/// The first non-string element's shape, landing on [`arr_str_err`].
fn arr_str_err_c(a: &Vec<Json>) -> (r: Option<Found>)
    ensures
        r == arr_str_err(arr_v(a@)),
{
    proof {
        lemma_arr_v(a@);
    }
    let mut i: usize = 0;
    while i < a.len()
        invariant
            i <= a.len(),
            arr_v(a@).len() == a@.len(),
            forall|j: int| #![auto] 0 <= j < a@.len() ==> arr_v(a@)[j] == json_v(a@[j]),
            forall|j: int| 0 <= j < i ==> (#[trigger] arr_v(a@)[j]) is Str,
        decreases a.len() - i,
    {
        match &a[i] {
            Json::Str(_) => {
                i = i + 1;
            },
            x => {
                proof {
                    lemma_arr_str_scan(arr_v(a@), i as int);
                    assert(arr_v(a@).skip(i as int)[0] == arr_v(a@)[i as int]);
                }
                return Some(found_of_c(x));
            },
        }
    }
    proof {
        lemma_arr_str_scan(arr_v(a@), i as int);
        assert(arr_v(a@).skip(i as int) =~= Seq::<JsonV>::empty());
    }
    None
}

/// How one field violates its declared shape, landing on [`kind_err`].
fn check_kind(o: &Vec<(String, Json)>, name: &str, k: FKind) -> (r: Option<(Expected, Found)>)
    ensures
        r == kind_err(lookup(entries_v(o@), name@), k),
{
    let fo = find_key(o, name);
    match k {
        FKind::FBool => match fo {
            None => Some((Expected::BoolShape, Found::Absent)),
            Some(i) => match &o[i].1 {
                Json::Bool(_) => None,
                x => Some((Expected::BoolShape, found_of_c(x))),
            },
        },
        FKind::FStr => match fo {
            None => Some((Expected::StrShape, Found::Absent)),
            Some(i) => match &o[i].1 {
                Json::Str(_) => None,
                x => Some((Expected::StrShape, found_of_c(x))),
            },
        },
        FKind::FOptStr => match fo {
            None => None,
            Some(i) => match &o[i].1 {
                Json::Null => None,
                Json::Str(_) => None,
                x => Some((Expected::StrOrNull, found_of_c(x))),
            },
        },
        FKind::FI64 => match fo {
            None => Some((Expected::IntShape, Found::Absent)),
            Some(i) => match &o[i].1 {
                Json::Num(t) => match i64_of_token(t) {
                    Some(_) => None,
                    None => {
                        if int_shape(t) {
                            Some((Expected::IntShape, Found::OutOfRange))
                        } else {
                            Some((Expected::IntShape, Found::NotInteger))
                        }
                    },
                },
                x => Some((Expected::IntShape, found_of_c(x))),
            },
        },
        FKind::FNum => match fo {
            None => Some((Expected::NumShape, Found::Absent)),
            Some(i) => match &o[i].1 {
                Json::Num(_) => None,
                x => Some((Expected::NumShape, found_of_c(x))),
            },
        },
        FKind::FArrStr => match fo {
            None => Some((Expected::StrArray, Found::Absent)),
            Some(i) => match &o[i].1 {
                Json::Arr(a) => match arr_str_err_c(a) {
                    None => None,
                    Some(f) => Some((Expected::StrArray, f)),
                },
                x => Some((Expected::StrArray, found_of_c(x))),
            },
        },
    }
}

/// The first schema error among a table's fields, landing on
/// [`check_fields`].
fn fields_err(o: &Vec<(String, Json)>, table: &Vec<(String, FKind)>, at: Entity) -> (r: Option<
    SchemaError,
>)
    ensures
        match r {
            Some(e) => check_fields(entries_v(o@), ktable_v(table@), at) == Some(e.v()),
            None => check_fields(entries_v(o@), ktable_v(table@), at) is None,
        },
{
    proof {
        lemma_ktable_v(table@);
    }
    let mut i: usize = 0;
    while i < table.len()
        invariant
            i <= table.len(),
            ktable_v(table@).len() == table@.len(),
            forall|j: int| #![auto]
                0 <= j < table@.len() ==> ktable_v(table@)[j] == (table@[j].0@, table@[j].1),
            forall|j: int|
                0 <= j < i ==> kind_err(
                    lookup(entries_v(o@), (#[trigger] ktable_v(table@)[j]).0),
                    ktable_v(table@)[j].1,
                ) is None,
        decreases table.len() - i,
    {
        let entry = &table[i];
        match check_kind(o, entry.0.as_str(), entry.1) {
            Some((exp, fnd)) => {
                proof {
                    lemma_fields_scan(entries_v(o@), ktable_v(table@), at, i as int);
                    assert(ktable_v(table@).skip(i as int)[0] == ktable_v(table@)[i as int]);
                }
                return Some(
                    SchemaError { at, field: entry.0.clone(), expected: exp, found: fnd },
                );
            },
            None => {
                i = i + 1;
            },
        }
    }
    proof {
        lemma_fields_scan(entries_v(o@), ktable_v(table@), at, i as int);
        assert(ktable_v(table@).skip(i as int) =~= Seq::<(Seq<char>, FKind)>::empty());
    }
    None
}

/// The string a checked required-string field holds.
fn take_str(o: &Vec<(String, Json)>, name: &str) -> (r: String)
    requires
        kind_err(lookup(entries_v(o@), name@), FKind::FStr) is None,
    ensures
        r@ == crate::schema::got_str(entries_v(o@), name@),
{
    match find_key(o, name) {
        Some(i) => match &o[i].1 {
            Json::Str(s) => s.clone(),
            _ => vstd::pervasive::unreached(),
        },
        None => vstd::pervasive::unreached(),
    }
}

/// The value a checked optional-string field holds.
fn take_opt_str(o: &Vec<(String, Json)>, name: &str) -> (r: Option<String>)
    requires
        kind_err(lookup(entries_v(o@), name@), FKind::FOptStr) is None,
    ensures
        crate::model::opt_v(r) == crate::schema::got_opt_str(entries_v(o@), name@),
{
    match find_key(o, name) {
        Some(i) => match &o[i].1 {
            Json::Str(s) => Some(s.clone()),
            Json::Null => None,
            _ => vstd::pervasive::unreached(),
        },
        None => None,
    }
}

/// The value a checked boolean field holds.
fn take_bool(o: &Vec<(String, Json)>, name: &str) -> (r: bool)
    requires
        kind_err(lookup(entries_v(o@), name@), FKind::FBool) is None,
    ensures
        r == crate::schema::got_bool(entries_v(o@), name@),
{
    match find_key(o, name) {
        Some(i) => match &o[i].1 {
            Json::Bool(b) => *b,
            _ => vstd::pervasive::unreached(),
        },
        None => vstd::pervasive::unreached(),
    }
}

/// The value a checked integer field holds.
fn take_i64(o: &Vec<(String, Json)>, name: &str) -> (r: i64)
    requires
        kind_err(lookup(entries_v(o@), name@), FKind::FI64) is None,
    ensures
        r == crate::schema::got_i64(entries_v(o@), name@),
{
    match find_key(o, name) {
        Some(i) => match &o[i].1 {
            Json::Num(t) => match i64_of_token(t) {
                Some(n) => n,
                None => vstd::pervasive::unreached(),
            },
            _ => vstd::pervasive::unreached(),
        },
        None => vstd::pervasive::unreached(),
    }
}

/// A string holding exactly the given characters.
fn string_of_chars(t: &Vec<char>) -> (r: String)
    ensures
        r@ == t@,
{
    let mut s = String::new();
    let mut i: usize = 0;
    while i < t.len()
        invariant
            i <= t.len(),
            s@ =~= t@.subrange(0, i as int),
        decreases t.len() - i,
    {
        s.push(t[i]);
        proof {
            assert(s@ =~= t@.subrange(0, i as int + 1));
        }
        i = i + 1;
    }
    proof {
        assert(s@ =~= t@);
    }
    s
}

/// The raw token of a checked number field.
fn take_num(o: &Vec<(String, Json)>, name: &str) -> (r: String)
    requires
        kind_err(lookup(entries_v(o@), name@), FKind::FNum) is None,
    ensures
        r@ == crate::schema::got_num(entries_v(o@), name@),
{
    match find_key(o, name) {
        Some(i) => match &o[i].1 {
            Json::Num(t) => string_of_chars(t),
            _ => vstd::pervasive::unreached(),
        },
        None => vstd::pervasive::unreached(),
    }
}

/// The strings of a checked string-array field.
fn take_arr_str(o: &Vec<(String, Json)>, name: &str) -> (r: Vec<String>)
    requires
        kind_err(lookup(entries_v(o@), name@), FKind::FArrStr) is None,
    ensures
        strs_v(r@) == got_arr_str(entries_v(o@), name@),
{
    match find_key(o, name) {
        Some(i) => match &o[i].1 {
            Json::Arr(a) => {
                proof {
                    lemma_arr_v(a@);
                    lemma_arr_str_all(arr_v(a@));
                }
                let mut out: Vec<String> = Vec::new();
                let mut j: usize = 0;
                while j < a.len()
                    invariant
                        j <= a.len(),
                        out.len() == j,
                        arr_v(a@).len() == a@.len(),
                        forall|l: int| #![auto]
                            0 <= l < a@.len() ==> arr_v(a@)[l] == json_v(a@[l]),
                        forall|l: int| 0 <= l < a@.len() ==> (#[trigger] arr_v(a@)[l]) is Str,
                        forall|l: int| #![auto]
                            0 <= l < j ==> out@[l]@ == crate::schema::str_of(arr_v(a@)[l]),
                    decreases a.len() - j,
                {
                    match &a[j] {
                        Json::Str(s) => {
                            out.push(s.clone());
                        },
                        _ => {
                            proof {
                                assert(arr_v(a@)[j as int] is Str);
                            }
                            vstd::pervasive::unreached()
                        },
                    }
                    j = j + 1;
                }
                proof {
                    assert(strs_v(out@) =~= str_items(arr_v(a@)));
                }
                out
            },
            _ => vstd::pervasive::unreached(),
        },
        None => vstd::pervasive::unreached(),
    }
}

/// Builds the board's scalar-field table.
fn board_table_c() -> (r: Vec<(String, FKind)>)
    ensures
        ktable_v(r@) == board_table(),
{
    let mut t: Vec<(String, FKind)> = Vec::new();
    t.push((String::from_str("id"), FKind::FStr));
    t.push((String::from_str("nodeId"), FKind::FStr));
    t.push((String::from_str("name"), FKind::FStr));
    t.push((String::from_str("desc"), FKind::FStr));
    t.push((String::from_str("closed"), FKind::FBool));
    t.push((String::from_str("dateClosed"), FKind::FOptStr));
    t.push((String::from_str("idOrganization"), FKind::FOptStr));
    t.push((String::from_str("idEnterprise"), FKind::FOptStr));
    t.push((String::from_str("pinned"), FKind::FBool));
    t.push((String::from_str("starred"), FKind::FBool));
    t.push((String::from_str("url"), FKind::FStr));
    t.push((String::from_str("shortLink"), FKind::FStr));
    t.push((String::from_str("subscribed"), FKind::FBool));
    t.push((String::from_str("dateLastActivity"), FKind::FStr));
    t.push((String::from_str("dateLastView"), FKind::FStr));
    t.push((String::from_str("shortUrl"), FKind::FStr));
    t.push((String::from_str("idTags"), FKind::FArrStr));
    t.push((String::from_str("datePluginDisable"), FKind::FOptStr));
    t.push((String::from_str("ixUpdate"), FKind::FStr));
    t.push((String::from_str("enterpriseOwned"), FKind::FBool));
    t.push((String::from_str("idBoardSource"), FKind::FOptStr));
    t.push((String::from_str("premiumFeatures"), FKind::FArrStr));
    t.push((String::from_str("idMemberCreator"), FKind::FStr));
    proof {
        lemma_ktable_v(t@);
        assert(ktable_v(t@) =~= board_table());
    }
    t
}

/// Builds a card's scalar-field table.
fn card_table_c() -> (r: Vec<(String, FKind)>)
    ensures
        ktable_v(r@) == card_table(),
{
    let mut t: Vec<(String, FKind)> = Vec::new();
    t.push((String::from_str("id"), FKind::FStr));
    t.push((String::from_str("closed"), FKind::FBool));
    t.push((String::from_str("dueComplete"), FKind::FBool));
    t.push((String::from_str("dateLastActivity"), FKind::FStr));
    t.push((String::from_str("desc"), FKind::FStr));
    t.push((String::from_str("dueReminder"), FKind::FI64));
    t.push((String::from_str("email"), FKind::FStr));
    t.push((String::from_str("idBoard"), FKind::FStr));
    t.push((String::from_str("idChecklists"), FKind::FArrStr));
    t.push((String::from_str("idLabels"), FKind::FArrStr));
    t.push((String::from_str("idList"), FKind::FStr));
    t.push((String::from_str("idMembers"), FKind::FArrStr));
    t.push((String::from_str("idMembersVoted"), FKind::FArrStr));
    t.push((String::from_str("idOrganization"), FKind::FStr));
    t.push((String::from_str("idShort"), FKind::FI64));
    t.push((String::from_str("idAttachmentCover"), FKind::FOptStr));
    t.push((String::from_str("labels"), FKind::FArrStr));
    t.push((String::from_str("locationName"), FKind::FOptStr));
    t.push((String::from_str("manualCoverAttachment"), FKind::FBool));
    t.push((String::from_str("name"), FKind::FStr));
    t.push((String::from_str("nodeId"), FKind::FStr));
    t.push((String::from_str("pos"), FKind::FNum));
    t.push((String::from_str("shortLink"), FKind::FStr));
    t.push((String::from_str("shortUrl"), FKind::FStr));
    t.push((String::from_str("staticMapUrl"), FKind::FOptStr));
    t.push((String::from_str("subscribed"), FKind::FBool));
    t.push((String::from_str("url"), FKind::FStr));
    t.push((String::from_str("isTemplate"), FKind::FBool));
    proof {
        lemma_ktable_v(t@);
        assert(ktable_v(t@) =~= card_table());
    }
    t
}

/// Builds the badges scalar-field table.
fn badges_table_c() -> (r: Vec<(String, FKind)>)
    ensures
        ktable_v(r@) == badges_table(),
{
    let mut t: Vec<(String, FKind)> = Vec::new();
    t.push((String::from_str("location"), FKind::FBool));
    t.push((String::from_str("votes"), FKind::FI64));
    t.push((String::from_str("viewingMemberVoted"), FKind::FBool));
    t.push((String::from_str("subscribed"), FKind::FBool));
    t.push((String::from_str("checkItems"), FKind::FI64));
    t.push((String::from_str("checkItemsChecked"), FKind::FI64));
    t.push((String::from_str("checkItemsEarliestDue"), FKind::FOptStr));
    t.push((String::from_str("comments"), FKind::FI64));
    t.push((String::from_str("attachments"), FKind::FI64));
    t.push((String::from_str("description"), FKind::FBool));
    t.push((String::from_str("due"), FKind::FOptStr));
    t.push((String::from_str("dueComplete"), FKind::FBool));
    t.push((String::from_str("start"), FKind::FOptStr));
    proof {
        lemma_ktable_v(t@);
        assert(ktable_v(t@) =~= badges_table());
    }
    t
}

/// Builds the cover scalar-field table.
fn cover_table_c() -> (r: Vec<(String, FKind)>)
    ensures
        ktable_v(r@) == cover_table(),
{
    let mut t: Vec<(String, FKind)> = Vec::new();
    t.push((String::from_str("idAttachment"), FKind::FOptStr));
    t.push((String::from_str("color"), FKind::FOptStr));
    t.push((String::from_str("idUploadedBackground"), FKind::FOptStr));
    t.push((String::from_str("size"), FKind::FStr));
    t.push((String::from_str("brightness"), FKind::FStr));
    t.push((String::from_str("edgeColor"), FKind::FOptStr));
    t.push((String::from_str("idPlugin"), FKind::FOptStr));
    proof {
        lemma_ktable_v(t@);
        assert(ktable_v(t@) =~= cover_table());
    }
    t
}

/// Builds the image scalar-field table.
fn image_table_c() -> (r: Vec<(String, FKind)>)
    ensures
        ktable_v(r@) == image_table(),
{
    let mut t: Vec<(String, FKind)> = Vec::new();
    t.push((String::from_str("id"), FKind::FStr));
    t.push((String::from_str("scaled"), FKind::FBool));
    t.push((String::from_str("url"), FKind::FStr));
    t.push((String::from_str("bytes"), FKind::FI64));
    t.push((String::from_str("height"), FKind::FI64));
    t.push((String::from_str("width"), FKind::FI64));
    proof {
        lemma_ktable_v(t@);
        assert(ktable_v(t@) =~= image_table());
    }
    t
}

/// Builds the attachment scalar-field table.
fn attachment_table_c() -> (r: Vec<(String, FKind)>)
    ensures
        ktable_v(r@) == attachment_table(),
{
    let mut t: Vec<(String, FKind)> = Vec::new();
    t.push((String::from_str("id"), FKind::FStr));
    t.push((String::from_str("bytes"), FKind::FI64));
    t.push((String::from_str("date"), FKind::FStr));
    t.push((String::from_str("edgeColor"), FKind::FStr));
    t.push((String::from_str("idMember"), FKind::FStr));
    t.push((String::from_str("isUpload"), FKind::FBool));
    t.push((String::from_str("mimeType"), FKind::FStr));
    t.push((String::from_str("name"), FKind::FStr));
    t.push((String::from_str("url"), FKind::FStr));
    t.push((String::from_str("pos"), FKind::FNum));
    t.push((String::from_str("fileName"), FKind::FStr));
    proof {
        lemma_ktable_v(t@);
        assert(ktable_v(t@) =~= attachment_table());
    }
    t
}

/// Builds the label-table field list.
fn labels_table_c() -> (r: Vec<(String, FKind)>)
    ensures
        ktable_v(r@) == labels_table(),
{
    let mut t: Vec<(String, FKind)> = Vec::new();
    t.push((String::from_str("green"), FKind::FStr));
    t.push((String::from_str("yellow"), FKind::FStr));
    t.push((String::from_str("orange"), FKind::FStr));
    t.push((String::from_str("red"), FKind::FStr));
    t.push((String::from_str("purple"), FKind::FStr));
    t.push((String::from_str("blue"), FKind::FStr));
    t.push((String::from_str("sky"), FKind::FStr));
    t.push((String::from_str("lime"), FKind::FStr));
    t.push((String::from_str("pink"), FKind::FStr));
    t.push((String::from_str("black"), FKind::FStr));
    t.push((String::from_str("green_dark"), FKind::FStr));
    t.push((String::from_str("yellow_dark"), FKind::FStr));
    t.push((String::from_str("orange_dark"), FKind::FStr));
    t.push((String::from_str("red_dark"), FKind::FStr));
    t.push((String::from_str("purple_dark"), FKind::FStr));
    t.push((String::from_str("blue_dark"), FKind::FStr));
    t.push((String::from_str("sky_dark"), FKind::FStr));
    t.push((String::from_str("lime_dark"), FKind::FStr));
    t.push((String::from_str("pink_dark"), FKind::FStr));
    t.push((String::from_str("black_dark"), FKind::FStr));
    t.push((String::from_str("green_light"), FKind::FStr));
    t.push((String::from_str("yellow_light"), FKind::FStr));
    t.push((String::from_str("orange_light"), FKind::FStr));
    t.push((String::from_str("red_light"), FKind::FStr));
    t.push((String::from_str("purple_light"), FKind::FStr));
    t.push((String::from_str("blue_light"), FKind::FStr));
    t.push((String::from_str("sky_light"), FKind::FStr));
    t.push((String::from_str("lime_light"), FKind::FStr));
    t.push((String::from_str("pink_light"), FKind::FStr));
    t.push((String::from_str("black_light"), FKind::FStr));
    proof {
        lemma_ktable_v(t@);
        assert(ktable_v(t@) =~= labels_table());
    }
    t
}

/// Whether a key belongs to the label table.
fn key_known(table: &Vec<(String, FKind)>, key: &String) -> (r: bool)
    requires
        ktable_v(table@) == labels_table(),
    ensures
        r == label_names().contains(key@),
{
    proof {
        lemma_ktable_v(table@);
    }
    let mut j: usize = 0;
    while j < table.len()
        invariant
            j <= table.len(),
            ktable_v(table@) == labels_table(),
            ktable_v(table@).len() == table@.len(),
            forall|l: int| #![auto]
                0 <= l < table@.len() ==> ktable_v(table@)[l] == (table@[l].0@, table@[l].1),
            forall|l: int| 0 <= l < j ==> #[trigger] label_names()[l] != key@,
        decreases table.len() - j,
    {
        let entry = &table[j];
        if entry.0.eq(key) {
            proof {
                assert(label_names()[j as int] == labels_table()[j as int].0);
            }
            return true;
        }
        proof {
            assert(label_names()[j as int] == labels_table()[j as int].0);
        }
        j = j + 1;
    }
    proof {
        assert(label_names().len() == labels_table().len());
        if label_names().contains(key@) {
            let l = choose|l: int| 0 <= l < label_names().len() && label_names()[l] == key@;
            assert(label_names()[l] != key@);
        }
    }
    false
}

/// The first unknown key of the label table, landing on [`extra_key_err`].
fn labels_extra(o: &Vec<(String, Json)>, table: &Vec<(String, FKind)>) -> (r: Option<
    SchemaError,
>)
    requires
        ktable_v(table@) == labels_table(),
    ensures
        match r {
            Some(e) => extra_key_err(entries_v(o@), label_names(), Entity::Labels) == Some(
                e.v(),
            ),
            None => extra_key_err(entries_v(o@), label_names(), Entity::Labels) is None,
        },
{
    proof {
        lemma_entries_v(o@);
    }
    let mut i: usize = 0;
    while i < o.len()
        invariant
            i <= o.len(),
            ktable_v(table@) == labels_table(),
            entries_v(o@).len() == o@.len(),
            forall|j: int| #![auto]
                0 <= j < o@.len() ==> entries_v(o@)[j] == crate::value::entry_v(o@[j]),
            forall|j: int| 0 <= j < i ==> label_names().contains((#[trigger] entries_v(o@)[j]).0),
        decreases o.len() - i,
    {
        let entry = &o[i];
        if !key_known(table, &entry.0) {
            proof {
                lemma_extra_scan(entries_v(o@), label_names(), Entity::Labels, i as int);
                assert(entries_v(o@).skip(i as int)[0] == entries_v(o@)[i as int]);
            }
            return Some(
                SchemaError {
                    at: Entity::Labels,
                    field: entry.0.clone(),
                    expected: Expected::NoSuchKey,
                    found: Found::Present,
                },
            );
        }
        i = i + 1;
    }
    proof {
        lemma_extra_scan(entries_v(o@), label_names(), Entity::Labels, i as int);
        assert(entries_v(o@).skip(i as int) =~= Seq::<(Seq<char>, JsonV)>::empty());
    }
    None
}

/// Validates the label table, landing on [`sp_labels`].
fn p_labels(o: &Vec<(String, Json)>) -> (r: Result<BoardLabels, SchemaError>)
    ensures
        match r {
            Ok(l) => sp_labels(entries_v(o@)) == Ok::<_, crate::error::SchemaErrV>(l.v()),
            Err(e) => sp_labels(entries_v(o@)) == Err::<crate::model::LabelsV, _>(e.v()),
        },
{
    let table = labels_table_c();
    match fields_err(o, &table, Entity::Labels) {
        Some(e) => Err(e),
        None => match labels_extra(o, &table) {
            Some(e) => Err(e),
            None => {
                proof {
                    lemma_fields_all(entries_v(o@), labels_table(), Entity::Labels);
                    assert(labels_table()[0] == ("green"@, FKind::FStr));
                    assert(labels_table()[1] == ("yellow"@, FKind::FStr));
                    assert(labels_table()[2] == ("orange"@, FKind::FStr));
                    assert(labels_table()[3] == ("red"@, FKind::FStr));
                    assert(labels_table()[4] == ("purple"@, FKind::FStr));
                    assert(labels_table()[5] == ("blue"@, FKind::FStr));
                    assert(labels_table()[6] == ("sky"@, FKind::FStr));
                    assert(labels_table()[7] == ("lime"@, FKind::FStr));
                    assert(labels_table()[8] == ("pink"@, FKind::FStr));
                    assert(labels_table()[9] == ("black"@, FKind::FStr));
                    assert(labels_table()[10] == ("green_dark"@, FKind::FStr));
                    assert(labels_table()[11] == ("yellow_dark"@, FKind::FStr));
                    assert(labels_table()[12] == ("orange_dark"@, FKind::FStr));
                    assert(labels_table()[13] == ("red_dark"@, FKind::FStr));
                    assert(labels_table()[14] == ("purple_dark"@, FKind::FStr));
                    assert(labels_table()[15] == ("blue_dark"@, FKind::FStr));
                    assert(labels_table()[16] == ("sky_dark"@, FKind::FStr));
                    assert(labels_table()[17] == ("lime_dark"@, FKind::FStr));
                    assert(labels_table()[18] == ("pink_dark"@, FKind::FStr));
                    assert(labels_table()[19] == ("black_dark"@, FKind::FStr));
                    assert(labels_table()[20] == ("green_light"@, FKind::FStr));
                    assert(labels_table()[21] == ("yellow_light"@, FKind::FStr));
                    assert(labels_table()[22] == ("orange_light"@, FKind::FStr));
                    assert(labels_table()[23] == ("red_light"@, FKind::FStr));
                    assert(labels_table()[24] == ("purple_light"@, FKind::FStr));
                    assert(labels_table()[25] == ("blue_light"@, FKind::FStr));
                    assert(labels_table()[26] == ("sky_light"@, FKind::FStr));
                    assert(labels_table()[27] == ("lime_light"@, FKind::FStr));
                    assert(labels_table()[28] == ("pink_light"@, FKind::FStr));
                    assert(labels_table()[29] == ("black_light"@, FKind::FStr));
                }
                Ok(
                    BoardLabels {
                        green: take_str(o, "green"),
                        yellow: take_str(o, "yellow"),
                        orange: take_str(o, "orange"),
                        red: take_str(o, "red"),
                        purple: take_str(o, "purple"),
                        blue: take_str(o, "blue"),
                        sky: take_str(o, "sky"),
                        lime: take_str(o, "lime"),
                        pink: take_str(o, "pink"),
                        black: take_str(o, "black"),
                        green_dark: take_str(o, "green_dark"),
                        yellow_dark: take_str(o, "yellow_dark"),
                        orange_dark: take_str(o, "orange_dark"),
                        red_dark: take_str(o, "red_dark"),
                        purple_dark: take_str(o, "purple_dark"),
                        blue_dark: take_str(o, "blue_dark"),
                        sky_dark: take_str(o, "sky_dark"),
                        lime_dark: take_str(o, "lime_dark"),
                        pink_dark: take_str(o, "pink_dark"),
                        black_dark: take_str(o, "black_dark"),
                        green_light: take_str(o, "green_light"),
                        yellow_light: take_str(o, "yellow_light"),
                        orange_light: take_str(o, "orange_light"),
                        red_light: take_str(o, "red_light"),
                        purple_light: take_str(o, "purple_light"),
                        blue_light: take_str(o, "blue_light"),
                        sky_light: take_str(o, "sky_light"),
                        lime_light: take_str(o, "lime_light"),
                        pink_light: take_str(o, "pink_light"),
                        black_light: take_str(o, "black_light"),
                    },
                )
            },
        },
    }
}



/// Validates one preview image, landing on [`sp_image`].
fn p_image(j: &Json, at: Entity) -> (r: Result<Image, SchemaError>)
    ensures
        match r {
            Ok(img) => sp_image(json_v(*j), at) == Ok::<_, crate::error::SchemaErrV>(img.v()),
            Err(e) => sp_image(json_v(*j), at) == Err::<crate::model::ImageV, _>(e.v()),
        },
{
    match j {
        Json::Obj(o) => {
            let table = image_table_c();
            match fields_err(o, &table, at) {
                Some(e) => Err(e),
                None => {
                    proof {
                        lemma_fields_all(entries_v(o@), image_table(), at);
                        assert(image_table()[0] == ("id"@, FKind::FStr));
                        assert(image_table()[1] == ("scaled"@, FKind::FBool));
                        assert(image_table()[2] == ("url"@, FKind::FStr));
                        assert(image_table()[3] == ("bytes"@, FKind::FI64));
                        assert(image_table()[4] == ("height"@, FKind::FI64));
                        assert(image_table()[5] == ("width"@, FKind::FI64));
                    }
                    Ok(
                        Image {
                            id: take_str(o, "id"),
                            scaled: take_bool(o, "scaled"),
                            url: take_str(o, "url"),
                            bytes: take_i64(o, "bytes"),
                            height: take_i64(o, "height"),
                            width: take_i64(o, "width"),
                        },
                    )
                },
            }
        },
        x => Err(
            SchemaError {
                at,
                field: String::new(),
                expected: Expected::ObjShape,
                found: found_of_c(x),
            },
        ),
    }
}

/// Validates a cover's scaled renditions, landing on [`sp_cover_images`].
fn p_cover_images(a: &Vec<Json>, card: usize) -> (r: Result<Vec<Image>, SchemaError>)
    ensures
        match r {
            Ok(imgs) => sp_cover_images(arr_v(a@), card, 0) == Ok::<
                _,
                crate::error::SchemaErrV,
            >(images_v(imgs@)),
            Err(e) => sp_cover_images(arr_v(a@), card, 0) == Err::<
                Seq<crate::model::ImageV>,
                _,
            >(e.v()),
        },
{
    proof {
        lemma_arr_v(a@);
        assert(arr_v(a@).skip(0) =~= arr_v(a@));
    }
    let mut out: Vec<Image> = Vec::new();
    let mut i: usize = 0;
    while i < a.len()
        invariant
            i <= a.len(),
            out.len() == i,
            arr_v(a@).len() == a@.len(),
            forall|l: int| #![auto] 0 <= l < a@.len() ==> arr_v(a@)[l] == json_v(a@[l]),
            match sp_cover_images(arr_v(a@).skip(i as int), card, i) {
                Ok(imgs) => sp_cover_images(arr_v(a@), card, 0) == Ok::<
                    _,
                    crate::error::SchemaErrV,
                >(images_v(out@) + imgs),
                Err(e) => sp_cover_images(arr_v(a@), card, 0) == Err::<
                    Seq<crate::model::ImageV>,
                    _,
                >(e),
            },
        decreases a.len() - i,
    {
        proof {
            assert(arr_v(a@).skip(i as int)[0] == arr_v(a@)[i as int]);
            assert(arr_v(a@).skip(i as int).drop_first() =~= arr_v(a@).skip(i as int + 1));
        }
        match p_image(&a[i], Entity::CoverImage(card, i)) {
            Err(e) => {
                return Err(e);
            },
            Ok(img) => {
                let ghost out0 = out@;
                out.push(img);
                proof {
                    assert(images_v(out@) =~= images_v(out0) + seq![img.v()]);
                    assert forall|imgs: Seq<crate::model::ImageV>|
                        images_v(out0) + (seq![img.v()] + imgs) =~= images_v(out@) + imgs by {}
                }
                i = i + 1;
            },
        }
    }
    proof {
        assert(arr_v(a@).skip(i as int) =~= Seq::<JsonV>::empty());
        assert(images_v(out@) + Seq::<crate::model::ImageV>::empty() =~= images_v(out@));
    }
    Ok(out)
}

/// Validates an attachment's previews, landing on [`sp_previews`].
fn p_previews(a: &Vec<Json>, card: usize, att: usize) -> (r: Result<Vec<Image>, SchemaError>)
    ensures
        match r {
            Ok(imgs) => sp_previews(arr_v(a@), card, att, 0) == Ok::<
                _,
                crate::error::SchemaErrV,
            >(images_v(imgs@)),
            Err(e) => sp_previews(arr_v(a@), card, att, 0) == Err::<
                Seq<crate::model::ImageV>,
                _,
            >(e.v()),
        },
{
    proof {
        lemma_arr_v(a@);
        assert(arr_v(a@).skip(0) =~= arr_v(a@));
    }
    let mut out: Vec<Image> = Vec::new();
    let mut i: usize = 0;
    while i < a.len()
        invariant
            i <= a.len(),
            out.len() == i,
            arr_v(a@).len() == a@.len(),
            forall|l: int| #![auto] 0 <= l < a@.len() ==> arr_v(a@)[l] == json_v(a@[l]),
            match sp_previews(arr_v(a@).skip(i as int), card, att, i) {
                Ok(imgs) => sp_previews(arr_v(a@), card, att, 0) == Ok::<
                    _,
                    crate::error::SchemaErrV,
                >(images_v(out@) + imgs),
                Err(e) => sp_previews(arr_v(a@), card, att, 0) == Err::<
                    Seq<crate::model::ImageV>,
                    _,
                >(e),
            },
        decreases a.len() - i,
    {
        proof {
            assert(arr_v(a@).skip(i as int)[0] == arr_v(a@)[i as int]);
            assert(arr_v(a@).skip(i as int).drop_first() =~= arr_v(a@).skip(i as int + 1));
        }
        match p_image(&a[i], Entity::Preview(card, att, i)) {
            Err(e) => {
                return Err(e);
            },
            Ok(img) => {
                let ghost out0 = out@;
                out.push(img);
                proof {
                    assert(images_v(out@) =~= images_v(out0) + seq![img.v()]);
                    assert forall|imgs: Seq<crate::model::ImageV>|
                        images_v(out0) + (seq![img.v()] + imgs) =~= images_v(out@) + imgs by {}
                }
                i = i + 1;
            },
        }
    }
    proof {
        assert(arr_v(a@).skip(i as int) =~= Seq::<JsonV>::empty());
        assert(images_v(out@) + Seq::<crate::model::ImageV>::empty() =~= images_v(out@));
    }
    Ok(out)
}

/// Validates a card's cover, landing on [`sp_cover`].
fn p_cover(o: &Vec<(String, Json)>, card: usize) -> (r: Result<Cover, SchemaError>)
    ensures
        match r {
            Ok(c) => sp_cover(entries_v(o@), card) == Ok::<_, crate::error::SchemaErrV>(c.v()),
            Err(e) => sp_cover(entries_v(o@), card) == Err::<crate::model::CoverV, _>(e.v()),
        },
{
    let table = cover_table_c();
    match fields_err(o, &table, Entity::Cover(card)) {
        Some(e) => Err(e),
        None => {
            let scaled: Option<Vec<Image>> = match find_key(o, "scaled") {
                None => None,
                Some(i) => match &o[i].1 {
                    Json::Null => None,
                    Json::Arr(a) => match p_cover_images(a, card) {
                        Ok(imgs) => Some(imgs),
                        Err(e) => {
                            return Err(e);
                        },
                    },
                    x => {
                        return Err(
                            SchemaError {
                                at: Entity::Cover(card),
                                field: String::from_str("scaled"),
                                expected: Expected::ArrShape,
                                found: found_of_c(x),
                            },
                        );
                    },
                },
            };
            proof {
                lemma_fields_all(entries_v(o@), cover_table(), Entity::Cover(card));
                assert(cover_table()[0] == ("idAttachment"@, FKind::FOptStr));
                assert(cover_table()[1] == ("color"@, FKind::FOptStr));
                assert(cover_table()[2] == ("idUploadedBackground"@, FKind::FOptStr));
                assert(cover_table()[3] == ("size"@, FKind::FStr));
                assert(cover_table()[4] == ("brightness"@, FKind::FStr));
                assert(cover_table()[5] == ("edgeColor"@, FKind::FOptStr));
                assert(cover_table()[6] == ("idPlugin"@, FKind::FOptStr));
            }
            Ok(
                Cover {
                    id_attachment: take_opt_str(o, "idAttachment"),
                    color: take_opt_str(o, "color"),
                    id_uploaded_background: take_opt_str(o, "idUploadedBackground"),
                    size: take_str(o, "size"),
                    brightness: take_str(o, "brightness"),
                    scaled,
                    edge_color: take_opt_str(o, "edgeColor"),
                    id_plugin: take_opt_str(o, "idPlugin"),
                },
            )
        },
    }
}

/// Validates one attachment, landing on [`sp_attachment`].
fn p_attachment(j: &Json, card: usize, att: usize) -> (r: Result<Attachment, SchemaError>)
    ensures
        match r {
            Ok(a) => crate::schema::sp_attachment(json_v(*j), card, att) == Ok::<
                _,
                crate::error::SchemaErrV,
            >(a.v()),
            Err(e) => crate::schema::sp_attachment(json_v(*j), card, att) == Err::<
                crate::model::AttachmentV,
                _,
            >(e.v()),
        },
{
    let at = Entity::Attachment(card, att);
    match j {
        Json::Obj(o) => {
            let table = attachment_table_c();
            match fields_err(o, &table, at) {
                Some(e) => Err(e),
                None => {
                    let previews: Vec<Image> = match find_key(o, "previews") {
                        None => {
                            return Err(
                                SchemaError {
                                    at,
                                    field: String::from_str("previews"),
                                    expected: Expected::ArrShape,
                                    found: Found::Absent,
                                },
                            );
                        },
                        Some(i) => match &o[i].1 {
                            Json::Arr(a) => match p_previews(a, card, att) {
                                Ok(imgs) => imgs,
                                Err(e) => {
                                    return Err(e);
                                },
                            },
                            x => {
                                return Err(
                                    SchemaError {
                                        at,
                                        field: String::from_str("previews"),
                                        expected: Expected::ArrShape,
                                        found: found_of_c(x),
                                    },
                                );
                            },
                        },
                    };
                    proof {
                        lemma_fields_all(entries_v(o@), attachment_table(), at);
                        assert(attachment_table()[0] == ("id"@, FKind::FStr));
                        assert(attachment_table()[1] == ("bytes"@, FKind::FI64));
                        assert(attachment_table()[2] == ("date"@, FKind::FStr));
                        assert(attachment_table()[3] == ("edgeColor"@, FKind::FStr));
                        assert(attachment_table()[4] == ("idMember"@, FKind::FStr));
                        assert(attachment_table()[5] == ("isUpload"@, FKind::FBool));
                        assert(attachment_table()[6] == ("mimeType"@, FKind::FStr));
                        assert(attachment_table()[7] == ("name"@, FKind::FStr));
                        assert(attachment_table()[8] == ("url"@, FKind::FStr));
                        assert(attachment_table()[9] == ("pos"@, FKind::FNum));
                        assert(attachment_table()[10] == ("fileName"@, FKind::FStr));
                    }
                    Ok(
                        Attachment {
                            id: take_str(o, "id"),
                            bytes: take_i64(o, "bytes"),
                            date: take_str(o, "date"),
                            edge_color: take_str(o, "edgeColor"),
                            id_member: take_str(o, "idMember"),
                            is_upload: take_bool(o, "isUpload"),
                            mime_type: take_str(o, "mimeType"),
                            name: take_str(o, "name"),
                            previews,
                            url: take_str(o, "url"),
                            pos: take_num(o, "pos"),
                            file_name: take_str(o, "fileName"),
                        },
                    )
                },
            }
        },
        x => Err(
            SchemaError {
                at,
                field: String::new(),
                expected: Expected::ObjShape,
                found: found_of_c(x),
            },
        ),
    }
}

/// Validates a card's attachments, landing on [`sp_attachments`].
fn p_attachments(a: &Vec<Json>, card: usize) -> (r: Result<Vec<Attachment>, SchemaError>)
    ensures
        match r {
            Ok(list) => sp_attachments(arr_v(a@), card, 0) == Ok::<
                _,
                crate::error::SchemaErrV,
            >(crate::model::attachments_v(list@)),
            Err(e) => sp_attachments(arr_v(a@), card, 0) == Err::<
                Seq<crate::model::AttachmentV>,
                _,
            >(e.v()),
        },
{
    proof {
        lemma_arr_v(a@);
        assert(arr_v(a@).skip(0) =~= arr_v(a@));
    }
    let mut out: Vec<Attachment> = Vec::new();
    let mut i: usize = 0;
    while i < a.len()
        invariant
            i <= a.len(),
            out.len() == i,
            arr_v(a@).len() == a@.len(),
            forall|l: int| #![auto] 0 <= l < a@.len() ==> arr_v(a@)[l] == json_v(a@[l]),
            match sp_attachments(arr_v(a@).skip(i as int), card, i) {
                Ok(list) => sp_attachments(arr_v(a@), card, 0) == Ok::<
                    _,
                    crate::error::SchemaErrV,
                >(crate::model::attachments_v(out@) + list),
                Err(e) => sp_attachments(arr_v(a@), card, 0) == Err::<
                    Seq<crate::model::AttachmentV>,
                    _,
                >(e),
            },
        decreases a.len() - i,
    {
        proof {
            assert(arr_v(a@).skip(i as int)[0] == arr_v(a@)[i as int]);
            assert(arr_v(a@).skip(i as int).drop_first() =~= arr_v(a@).skip(i as int + 1));
        }
        match p_attachment(&a[i], card, i) {
            Err(e) => {
                return Err(e);
            },
            Ok(att) => {
                let ghost out0 = out@;
                out.push(att);
                proof {
                    assert(crate::model::attachments_v(out@) =~= crate::model::attachments_v(
                        out0,
                    ) + seq![att.v()]);
                    assert forall|list: Seq<crate::model::AttachmentV>|
                        crate::model::attachments_v(out0) + (seq![att.v()] + list)
                            =~= crate::model::attachments_v(out@) + list by {}
                }
                i = i + 1;
            },
        }
    }
    proof {
        assert(arr_v(a@).skip(i as int) =~= Seq::<JsonV>::empty());
        assert(crate::model::attachments_v(out@) + Seq::<crate::model::AttachmentV>::empty()
            =~= crate::model::attachments_v(out@));
    }
    Ok(out)
}

/// Validates a card's badges, landing on [`sp_badges`]; consumes the badge
/// object so the free-form mapping can be kept verbatim.
fn p_badges(o: Vec<(String, Json)>, card: usize) -> (r: Result<Badges, SchemaError>)
    ensures
        match r {
            Ok(b) => sp_badges(entries_v(o@), card) == Ok::<_, crate::error::SchemaErrV>(b.v()),
            Err(e) => sp_badges(entries_v(o@), card) == Err::<crate::model::BadgesV, _>(e.v()),
        },
{
    let at = Entity::Badges(card);
    let table = badges_table_c();
    match fields_err(&o, &table, at) {
        Some(e) => Err(e),
        None => {
            proof {
                lemma_fields_all(entries_v(o@), badges_table(), at);
                assert(badges_table()[0] == ("location"@, FKind::FBool));
                assert(badges_table()[1] == ("votes"@, FKind::FI64));
                assert(badges_table()[2] == ("viewingMemberVoted"@, FKind::FBool));
                assert(badges_table()[3] == ("subscribed"@, FKind::FBool));
                assert(badges_table()[4] == ("checkItems"@, FKind::FI64));
                assert(badges_table()[5] == ("checkItemsChecked"@, FKind::FI64));
                assert(badges_table()[6] == ("checkItemsEarliestDue"@, FKind::FOptStr));
                assert(badges_table()[7] == ("comments"@, FKind::FI64));
                assert(badges_table()[8] == ("attachments"@, FKind::FI64));
                assert(badges_table()[9] == ("description"@, FKind::FBool));
                assert(badges_table()[10] == ("due"@, FKind::FOptStr));
                assert(badges_table()[11] == ("dueComplete"@, FKind::FBool));
                assert(badges_table()[12] == ("start"@, FKind::FOptStr));
            }
            let location = take_bool(&o, "location");
            let votes = take_i64(&o, "votes");
            let viewing_member_voted = take_bool(&o, "viewingMemberVoted");
            let subscribed = take_bool(&o, "subscribed");
            let check_items = take_i64(&o, "checkItems");
            let check_items_checked = take_i64(&o, "checkItemsChecked");
            let check_items_earliest_due = take_opt_str(&o, "checkItemsEarliestDue");
            let comments = take_i64(&o, "comments");
            let attachments = take_i64(&o, "attachments");
            let description = take_bool(&o, "description");
            let due = take_opt_str(&o, "due");
            let due_complete = take_bool(&o, "dueComplete");
            let start = take_opt_str(&o, "start");
            match find_key(&o, "attachmentsByType") {
                None => Err(
                    SchemaError {
                        at,
                        field: String::from_str("attachmentsByType"),
                        expected: Expected::ObjShape,
                        found: Found::Absent,
                    },
                ),
                Some(bi) => {
                    let mut rest = o;
                    let entry = rest.remove(bi);
                    match entry.1 {
                        Json::Obj(es) => Ok(
                            Badges {
                                attachments_by_type: es,
                                location,
                                votes,
                                viewing_member_voted,
                                subscribed,
                                check_items,
                                check_items_checked,
                                check_items_earliest_due,
                                comments,
                                attachments,
                                description,
                                due,
                                due_complete,
                                start,
                            },
                        ),
                        x => Err(
                            SchemaError {
                                at,
                                field: String::from_str("attachmentsByType"),
                                expected: Expected::ObjShape,
                                found: found_of_c(&x),
                            },
                        ),
                    }
                },
            }
        },
    }
}



/// Validates one card, landing on [`sp_card`]; consumes the card's JSON
/// value so its badges can keep the free-form mapping verbatim.
fn p_card(v: Json, idx: usize) -> (r: Result<Card, SchemaError>)
    ensures
        match r {
            Ok(c) => sp_card(json_v(v), idx) == Ok::<_, crate::error::SchemaErrV>(c.v()),
            Err(e) => sp_card(json_v(v), idx) == Err::<crate::model::CardV, _>(e.v()),
        },
{
    let at = Entity::Card(idx);
    match v {
        Json::Obj(o) => {
            let table = card_table_c();
            match fields_err(&o, &table, at) {
                Some(e) => Err(e),
                None => {
                    let cover: Cover = match find_key(&o, "cover") {
                        None => {
                            return Err(
                                SchemaError {
                                    at,
                                    field: String::from_str("cover"),
                                    expected: Expected::ObjShape,
                                    found: Found::Absent,
                                },
                            );
                        },
                        Some(ci) => match &o[ci].1 {
                            Json::Obj(co) => match p_cover(co, idx) {
                                Ok(c) => c,
                                Err(e) => {
                                    return Err(e);
                                },
                            },
                            x => {
                                return Err(
                                    SchemaError {
                                        at,
                                        field: String::from_str("cover"),
                                        expected: Expected::ObjShape,
                                        found: found_of_c(x),
                                    },
                                );
                            },
                        },
                    };
                    let atts: Vec<Attachment> = match find_key(&o, "attachments") {
                        None => {
                            return Err(
                                SchemaError {
                                    at,
                                    field: String::from_str("attachments"),
                                    expected: Expected::ArrShape,
                                    found: Found::Absent,
                                },
                            );
                        },
                        Some(ai) => match &o[ai].1 {
                            Json::Arr(a) => match p_attachments(a, idx) {
                                Ok(list) => list,
                                Err(e) => {
                                    return Err(e);
                                },
                            },
                            x => {
                                return Err(
                                    SchemaError {
                                        at,
                                        field: String::from_str("attachments"),
                                        expected: Expected::ArrShape,
                                        found: found_of_c(x),
                                    },
                                );
                            },
                        },
                    };
                    proof {
                        lemma_fields_all(entries_v(o@), card_table(), at);
                        assert(card_table()[0] == ("id"@, FKind::FStr));
                        assert(card_table()[1] == ("closed"@, FKind::FBool));
                        assert(card_table()[2] == ("dueComplete"@, FKind::FBool));
                        assert(card_table()[3] == ("dateLastActivity"@, FKind::FStr));
                        assert(card_table()[4] == ("desc"@, FKind::FStr));
                        assert(card_table()[5] == ("dueReminder"@, FKind::FI64));
                        assert(card_table()[6] == ("email"@, FKind::FStr));
                        assert(card_table()[7] == ("idBoard"@, FKind::FStr));
                        assert(card_table()[8] == ("idChecklists"@, FKind::FArrStr));
                        assert(card_table()[9] == ("idLabels"@, FKind::FArrStr));
                        assert(card_table()[10] == ("idList"@, FKind::FStr));
                        assert(card_table()[11] == ("idMembers"@, FKind::FArrStr));
                        assert(card_table()[12] == ("idMembersVoted"@, FKind::FArrStr));
                        assert(card_table()[13] == ("idOrganization"@, FKind::FStr));
                        assert(card_table()[14] == ("idShort"@, FKind::FI64));
                        assert(card_table()[15] == ("idAttachmentCover"@, FKind::FOptStr));
                        assert(card_table()[16] == ("labels"@, FKind::FArrStr));
                        assert(card_table()[17] == ("locationName"@, FKind::FOptStr));
                        assert(card_table()[18] == ("manualCoverAttachment"@, FKind::FBool));
                        assert(card_table()[19] == ("name"@, FKind::FStr));
                        assert(card_table()[20] == ("nodeId"@, FKind::FStr));
                        assert(card_table()[21] == ("pos"@, FKind::FNum));
                        assert(card_table()[22] == ("shortLink"@, FKind::FStr));
                        assert(card_table()[23] == ("shortUrl"@, FKind::FStr));
                        assert(card_table()[24] == ("staticMapUrl"@, FKind::FOptStr));
                        assert(card_table()[25] == ("subscribed"@, FKind::FBool));
                        assert(card_table()[26] == ("url"@, FKind::FStr));
                        assert(card_table()[27] == ("isTemplate"@, FKind::FBool));
                    }
                    let id = take_str(&o, "id");
                    let closed = take_bool(&o, "closed");
                    let due_complete = take_bool(&o, "dueComplete");
                    let date_last_activity = take_str(&o, "dateLastActivity");
                    let desc = take_str(&o, "desc");
                    let due_reminder = take_i64(&o, "dueReminder");
                    let email = take_str(&o, "email");
                    let id_board = take_str(&o, "idBoard");
                    let id_checklists = take_arr_str(&o, "idChecklists");
                    let id_labels = take_arr_str(&o, "idLabels");
                    let id_list = take_str(&o, "idList");
                    let id_members = take_arr_str(&o, "idMembers");
                    let id_members_voted = take_arr_str(&o, "idMembersVoted");
                    let id_organization = take_str(&o, "idOrganization");
                    let id_short = take_i64(&o, "idShort");
                    let id_attachment_cover = take_opt_str(&o, "idAttachmentCover");
                    let labels = take_arr_str(&o, "labels");
                    let location_name = take_opt_str(&o, "locationName");
                    let manual_cover_attachment = take_bool(&o, "manualCoverAttachment");
                    let name = take_str(&o, "name");
                    let node_id = take_str(&o, "nodeId");
                    let pos = take_num(&o, "pos");
                    let short_link = take_str(&o, "shortLink");
                    let short_url = take_str(&o, "shortUrl");
                    let static_map_url = take_opt_str(&o, "staticMapUrl");
                    let subscribed = take_bool(&o, "subscribed");
                    let url = take_str(&o, "url");
                    let is_template = take_bool(&o, "isTemplate");
                    match find_key(&o, "badges") {
                        None => Err(
                            SchemaError {
                                at,
                                field: String::from_str("badges"),
                                expected: Expected::ObjShape,
                                found: Found::Absent,
                            },
                        ),
                        Some(bi) => {
                            let mut rest = o;
                            let entry = rest.remove(bi);
                            match entry.1 {
                                Json::Obj(bo) => match p_badges(bo, idx) {
                                    Err(e) => Err(e),
                                    Ok(b) => Ok(
                                        Card {
                                            id,
                                            badges: b,
                                            closed,
                                            due_complete,
                                            date_last_activity,
                                            desc,
                                            due_reminder,
                                            email,
                                            id_board,
                                            id_checklists,
                                            id_labels,
                                            id_list,
                                            id_members,
                                            id_members_voted,
                                            id_organization,
                                            id_short,
                                            id_attachment_cover,
                                            labels,
                                            location_name,
                                            manual_cover_attachment,
                                            name,
                                            node_id,
                                            pos,
                                            short_link,
                                            short_url,
                                            static_map_url,
                                            subscribed,
                                            url,
                                            cover,
                                            is_template,
                                            attachments: atts,
                                        },
                                    ),
                                },
                                x => Err(
                                    SchemaError {
                                        at,
                                        field: String::from_str("badges"),
                                        expected: Expected::ObjShape,
                                        found: found_of_c(&x),
                                    },
                                ),
                            }
                        },
                    }
                },
            }
        },
        x => Err(
            SchemaError {
                at,
                field: String::new(),
                expected: Expected::ObjShape,
                found: found_of_c(&x),
            },
        ),
    }
}

/// Validates the card list in document order, landing on [`sp_cards`].
#[verifier::rlimit(80)]
#[verifier::loop_isolation(false)]
fn p_cards(ca: Vec<Json>) -> (r: Result<Vec<Card>, SchemaError>)
    ensures
        match r {
            Ok(cs) => sp_cards(arr_v(ca@), 0) == Ok::<_, crate::error::SchemaErrV>(
                crate::model::cards_v(cs@),
            ),
            Err(e) => sp_cards(arr_v(ca@), 0) == Err::<Seq<crate::model::CardV>, _>(e.v()),
        },
{
    let n = ca.len();
    let ghost orig = arr_v(ca@);
    proof {
        lemma_arr_v(ca@);
        assert(orig.len() == n);
        assert(orig.skip(0) =~= orig);
    }
    let mut rest = ca;
    let mut out: Vec<Card> = Vec::new();
    let mut i: usize = 0;
    while rest.len() > 0
        invariant
            i <= orig.len(),
            orig.len() <= usize::MAX,
            i + rest.len() == orig.len(),
            out.len() == i,
            arr_v(rest@) == orig.skip(i as int),
            match sp_cards(orig.skip(i as int), i) {
                Ok(cs) => sp_cards(orig, 0) == Ok::<_, crate::error::SchemaErrV>(
                    crate::model::cards_v(out@) + cs,
                ),
                Err(e) => sp_cards(orig, 0) == Err::<Seq<crate::model::CardV>, _>(e),
            },
        decreases rest.len(),
    {
        let ghost rest0 = rest@;
        proof {
            lemma_arr_v(rest0);
        }
        let j = rest.remove(0);
        proof {
            assert(json_v(j) == arr_v(rest0)[0]);
            assert(arr_v(rest0)[0] == orig.skip(i as int)[0]);
            assert(rest@ =~= rest0.subrange(1, rest0.len() as int));
            assert(arr_v(rest0) == seq![json_v(rest0[0])] + arr_v(
                rest0.subrange(1, rest0.len() as int),
            ));
            assert(arr_v(rest@) =~= arr_v(rest0).drop_first());
            assert(arr_v(rest0).drop_first() =~= orig.skip(i as int).drop_first());
            assert(orig.skip(i as int).drop_first() =~= orig.skip(i as int + 1));
        }
        match p_card(j, i) {
            Err(e) => {
                proof {
                    assert(orig.skip(i as int).len() > 0);
                    assert(sp_card(orig.skip(i as int)[0], i) == Err::<
                        crate::model::CardV,
                        _,
                    >(e.v()));
                    assert(sp_cards(orig.skip(i as int), i) == Err::<
                        Seq<crate::model::CardV>,
                        _,
                    >(e.v()));
                    assert(sp_cards(orig, 0) == Err::<Seq<crate::model::CardV>, _>(e.v()));
                }
                return Err(e);
            },
            Ok(c) => {
                let ghost out0 = out@;
                out.push(c);
                proof {
                    assert(crate::model::cards_v(out@) =~= crate::model::cards_v(out0)
                        + seq![c.v()]);
                    assert forall|cs: Seq<crate::model::CardV>|
                        crate::model::cards_v(out0) + (seq![c.v()] + cs)
                            =~= crate::model::cards_v(out@) + cs by {}
                }
                i = i + 1;
            },
        }
    }
    proof {
        assert(arr_v(rest@) == orig.skip(i as int));
        assert(rest@.len() == 0);
        assert(arr_v(rest@) =~= Seq::<JsonV>::empty());
        assert(crate::model::cards_v(out@) + Seq::<crate::model::CardV>::empty()
            =~= crate::model::cards_v(out@));
    }
    Ok(out)
}

/// Validates a whole document, landing on [`sp_board`]; consumes the JSON
/// tree.
pub fn p_board(v: Json) -> (r: Result<Board, SchemaError>)
    ensures
        match r {
            Ok(b) => sp_board(json_v(v)) == Ok::<_, crate::error::SchemaErrV>(b.v()),
            Err(e) => sp_board(json_v(v)) == Err::<crate::model::BoardV, _>(e.v()),
        },
{
    let at = Entity::Board;
    match v {
        Json::Obj(o) => {
            let table = board_table_c();
            match fields_err(&o, &table, at) {
                Some(e) => Err(e),
                None => {
                    let label_names_m: BoardLabels = match find_key(&o, "labelNames") {
                        None => {
                            return Err(
                                SchemaError {
                                    at,
                                    field: String::from_str("labelNames"),
                                    expected: Expected::ObjShape,
                                    found: Found::Absent,
                                },
                            );
                        },
                        Some(li) => match &o[li].1 {
                            Json::Obj(lo) => match p_labels(lo) {
                                Ok(l) => l,
                                Err(e) => {
                                    return Err(e);
                                },
                            },
                            x => {
                                return Err(
                                    SchemaError {
                                        at,
                                        field: String::from_str("labelNames"),
                                        expected: Expected::ObjShape,
                                        found: found_of_c(x),
                                    },
                                );
                            },
                        },
                    };
                    proof {
                        lemma_fields_all(entries_v(o@), board_table(), at);
                        assert(board_table()[0] == ("id"@, FKind::FStr));
                        assert(board_table()[1] == ("nodeId"@, FKind::FStr));
                        assert(board_table()[2] == ("name"@, FKind::FStr));
                        assert(board_table()[3] == ("desc"@, FKind::FStr));
                        assert(board_table()[4] == ("closed"@, FKind::FBool));
                        assert(board_table()[5] == ("dateClosed"@, FKind::FOptStr));
                        assert(board_table()[6] == ("idOrganization"@, FKind::FOptStr));
                        assert(board_table()[7] == ("idEnterprise"@, FKind::FOptStr));
                        assert(board_table()[8] == ("pinned"@, FKind::FBool));
                        assert(board_table()[9] == ("starred"@, FKind::FBool));
                        assert(board_table()[10] == ("url"@, FKind::FStr));
                        assert(board_table()[11] == ("shortLink"@, FKind::FStr));
                        assert(board_table()[12] == ("subscribed"@, FKind::FBool));
                        assert(board_table()[13] == ("dateLastActivity"@, FKind::FStr));
                        assert(board_table()[14] == ("dateLastView"@, FKind::FStr));
                        assert(board_table()[15] == ("shortUrl"@, FKind::FStr));
                        assert(board_table()[16] == ("idTags"@, FKind::FArrStr));
                        assert(board_table()[17] == ("datePluginDisable"@, FKind::FOptStr));
                        assert(board_table()[18] == ("ixUpdate"@, FKind::FStr));
                        assert(board_table()[19] == ("enterpriseOwned"@, FKind::FBool));
                        assert(board_table()[20] == ("idBoardSource"@, FKind::FOptStr));
                        assert(board_table()[21] == ("premiumFeatures"@, FKind::FArrStr));
                        assert(board_table()[22] == ("idMemberCreator"@, FKind::FStr));
                    }
                    let id = take_str(&o, "id");
                    let node_id = take_str(&o, "nodeId");
                    let name = take_str(&o, "name");
                    let desc = take_str(&o, "desc");
                    let closed = take_bool(&o, "closed");
                    let date_closed = take_opt_str(&o, "dateClosed");
                    let id_organization = take_opt_str(&o, "idOrganization");
                    let id_enterprise = take_opt_str(&o, "idEnterprise");
                    let pinned = take_bool(&o, "pinned");
                    let starred = take_bool(&o, "starred");
                    let url = take_str(&o, "url");
                    let short_link = take_str(&o, "shortLink");
                    let subscribed = take_bool(&o, "subscribed");
                    let date_last_activity = take_str(&o, "dateLastActivity");
                    let date_last_view = take_str(&o, "dateLastView");
                    let short_url = take_str(&o, "shortUrl");
                    let id_tags = take_arr_str(&o, "idTags");
                    let date_plugin_disable = take_opt_str(&o, "datePluginDisable");
                    let ix_update = take_str(&o, "ixUpdate");
                    let enterprise_owned = take_bool(&o, "enterpriseOwned");
                    let id_board_source = take_opt_str(&o, "idBoardSource");
                    let premium_features = take_arr_str(&o, "premiumFeatures");
                    let id_member_creator = take_str(&o, "idMemberCreator");
                    match find_key(&o, "cards") {
                        None => Err(
                            SchemaError {
                                at,
                                field: String::from_str("cards"),
                                expected: Expected::ArrShape,
                                found: Found::Absent,
                            },
                        ),
                        Some(ci) => {
                            let mut rest = o;
                            let entry = rest.remove(ci);
                            match entry.1 {
                                Json::Arr(ca) => match p_cards(ca) {
                                    Err(e) => Err(e),
                                    Ok(cards) => Ok(
                                        Board {
                                            id,
                                            node_id,
                                            name,
                                            desc,
                                            closed,
                                            date_closed,
                                            id_organization,
                                            id_enterprise,
                                            pinned,
                                            starred,
                                            url,
                                            short_link,
                                            subscribed,
                                            label_names: label_names_m,
                                            date_last_activity,
                                            date_last_view,
                                            short_url,
                                            id_tags,
                                            date_plugin_disable,
                                            ix_update,
                                            enterprise_owned,
                                            id_board_source,
                                            premium_features,
                                            id_member_creator,
                                            cards,
                                        },
                                    ),
                                },
                                x => Err(
                                    SchemaError {
                                        at,
                                        field: String::from_str("cards"),
                                        expected: Expected::ArrShape,
                                        found: found_of_c(&x),
                                    },
                                ),
                            }
                        },
                    }
                },
            }
        },
        x => Err(
            SchemaError {
                at,
                field: String::new(),
                expected: Expected::ObjShape,
                found: found_of_c(&x),
            },
        ),
    }
}

} // verus!
