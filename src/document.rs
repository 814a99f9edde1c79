//! Store documents and the mapping between them and recipes.
//!
//! A document is an ordered list of named values. A value is a string, an
//! array, a nested document, or something else that a recipe never holds.
//! Lookup by name takes the first entry with that name.

use vstd::prelude::*;
use crate::error::{is_decode_failure, AppError};
use crate::model::{texts, Ingredient, IngredientView, MediaRef, MediaRefView, Recipe, RecipeView};

verus! {

/// A value held under a name in a document.
#[derive(Debug)]
pub enum DocValue {
    Str(String),
    Array(Vec<DocValue>),
    Doc(Document),
    /// A value of any other type (a number, a boolean, null, ...).
    Other,
}

/// One named value of a document.
#[derive(Debug)]
pub struct Entry {
    pub key: String,
    pub value: DocValue,
}

/// An ordered list of named values.
#[derive(Debug)]
pub struct Document {
    pub entries: Vec<Entry>,
}

/// The value of the first entry at or after `i` named `key`.
pub open spec fn lookup_from(entries: Seq<Entry>, key: Seq<char>, i: int) -> Option<DocValue>
    decreases entries.len() - i,
{
    if i < 0 || i >= entries.len() {
        None
    } else if entries[i].key@ == key {
        Some(entries[i].value)
    } else {
        lookup_from(entries, key, i + 1)
    }
}

/// The value of the first entry named `key`.
pub open spec fn lookup(d: Document, key: Seq<char>) -> Option<DocValue> {
    lookup_from(d.entries@, key, 0)
}

/// The text of a string value; empty for any other value.
pub open spec fn text_of(v: DocValue) -> Seq<char> {
    match v {
        DocValue::Str(s) => s@,
        _ => Seq::empty(),
    }
}

/// The text held under `key`, if it is a string.
pub open spec fn field_text(d: Document, key: Seq<char>) -> Option<Seq<char>> {
    match lookup(d, key) {
        Some(DocValue::Str(s)) => Some(s@),
        _ => None,
    }
}

/// The texts of an array of strings.
pub open spec fn texts_of(v: Option<DocValue>) -> Option<Seq<Seq<char>>> {
    match v {
        Some(DocValue::Array(items)) => if forall|i: int|
            0 <= i < items@.len() ==> #[trigger] items@[i] is Str {
            Some(items@.map_values(|x: DocValue| text_of(x)))
        } else {
            None
        },
        _ => None,
    }
}

/// The ingredient that a value describes: a document with string `name` and `qty`.
pub open spec fn ingredient_of(v: DocValue) -> Option<IngredientView> {
    match v {
        DocValue::Doc(d) => match (field_text(d, "name"@), field_text(d, "qty"@)) {
            (Some(name), Some(qty)) => Some(IngredientView { name, qty }),
            _ => None,
        },
        _ => None,
    }
}

/// The media reference that a value describes: a document with string `anchor` and `url`.
pub open spec fn media_of(v: DocValue) -> Option<MediaRefView> {
    match v {
        DocValue::Doc(d) => match (field_text(d, "anchor"@), field_text(d, "url"@)) {
            (Some(anchor), Some(url)) => Some(MediaRefView { anchor, url }),
            _ => None,
        },
        _ => None,
    }
}

/// The ingredients of an array whose every item describes one.
pub open spec fn ingredients_of(v: Option<DocValue>) -> Option<Seq<IngredientView>> {
    match v {
        Some(DocValue::Array(items)) => if forall|i: int|
            0 <= i < items@.len() ==> #[trigger] ingredient_of(items@[i]) is Some {
            Some(items@.map_values(|x: DocValue| ingredient_of(x)->Some_0))
        } else {
            None
        },
        _ => None,
    }
}

/// The media references of an array whose every item describes one.
pub open spec fn media_list_of(v: Option<DocValue>) -> Option<Seq<MediaRefView>> {
    match v {
        Some(DocValue::Array(items)) => if forall|i: int|
            0 <= i < items@.len() ==> #[trigger] media_of(items@[i]) is Some {
            Some(items@.map_values(|x: DocValue| media_of(x)->Some_0))
        } else {
            None
        },
        _ => None,
    }
}

/// The recipe that a document describes, if it has every required field in
/// the required shape. Other fields are ignored.
pub open spec fn decoded(d: Document) -> Option<RecipeView> {
    let title = field_text(d, "title"@);
    let ingredients = ingredients_of(lookup(d, "ingredients"@));
    let instructions = texts_of(lookup(d, "instructions"@));
    let tags = texts_of(lookup(d, "tags"@));
    let media = media_list_of(lookup(d, "media"@));
    if title is Some && ingredients is Some && instructions is Some && tags is Some
        && media is Some {
        Some(
            RecipeView {
                title: title->Some_0,
                ingredients: ingredients->Some_0,
                instructions: instructions->Some_0,
                tags: tags->Some_0,
                media: media->Some_0,
            },
        )
    } else {
        None
    }
}

/// The value of the first entry of `d` named `key`.
pub fn lookup_value<'a>(d: &'a Document, key: &str) -> (r: Option<&'a DocValue>)
    ensures
        match r {
            Some(v) => lookup(*d, key@) == Some(*v),
            None => lookup(*d, key@) is None,
        },
{
    let k = String::from_str(key);
    let mut i: usize = 0;
    while i < d.entries.len()
        invariant
            0 <= i <= d.entries@.len(),
            k@ == key@,
            lookup(*d, key@) == lookup_from(d.entries@, key@, i as int),
        decreases d.entries@.len() - i,
    {
        if d.entries[i].key == k {
            return Some(&d.entries[i].value);
        }
        i += 1;
    }
    None
}

/// The text held under `key`, if it is a string.
pub fn text_field(d: &Document, key: &str) -> (r: Option<String>)
    ensures
        match r {
            Some(s) => field_text(*d, key@) == Some(s@),
            None => field_text(*d, key@) is None,
        },
{
    match lookup_value(d, key) {
        Some(DocValue::Str(s)) => Some(s.clone()),
        _ => None,
    }
}

/// The texts of the array held under `key`, if every item is a string.
pub fn text_list_field(d: &Document, key: &str) -> (r: Option<Vec<String>>)
    ensures
        match r {
            Some(v) => texts_of(lookup(*d, key@)) == Some(texts(v@)),
            None => texts_of(lookup(*d, key@)) is None,
        },
{
    match lookup_value(d, key) {
        Some(DocValue::Array(items)) => {
            let mut out: Vec<String> = Vec::new();
            let mut i: usize = 0;
            while i < items.len()
                invariant
                    0 <= i <= items@.len(),
                    lookup(*d, key@) == Some(DocValue::Array(*items)),
                    out@.len() == i,
                    forall|j: int| 0 <= j < i ==> #[trigger] items@[j] is Str,
                    forall|j: int| 0 <= j < i ==> #[trigger] out@[j]@ == text_of(items@[j]),
                decreases items@.len() - i,
            {
                match &items[i] {
                    DocValue::Str(s) => out.push(s.clone()),
                    _ => {
                        assert(!(items@[i as int] is Str));
                        return None;
                    },
                }
                i += 1;
            }
            assert(texts(out@) =~= items@.map_values(|x: DocValue| text_of(x)));
            Some(out)
        },
        _ => None,
    }
}

/// The ingredient that a value describes.
pub fn ingredient_value(v: &DocValue) -> (r: Option<Ingredient>)
    ensures
        match r {
            Some(i) => ingredient_of(*v) == Some(i@),
            None => ingredient_of(*v) is None,
        },
{
    match v {
        DocValue::Doc(d) => match (text_field(d, "name"), text_field(d, "qty")) {
            (Some(name), Some(qty)) => Some(Ingredient { name, qty }),
            _ => None,
        },
        _ => None,
    }
}

/// The media reference that a value describes.
pub fn media_value(v: &DocValue) -> (r: Option<MediaRef>)
    ensures
        match r {
            Some(m) => media_of(*v) == Some(m@),
            None => media_of(*v) is None,
        },
{
    match v {
        DocValue::Doc(d) => match (text_field(d, "anchor"), text_field(d, "url")) {
            (Some(anchor), Some(url)) => Some(MediaRef { anchor, url }),
            _ => None,
        },
        _ => None,
    }
}

/// The ingredients of the array held under `key`, if every item describes one.
pub fn ingredient_list_field(d: &Document, key: &str) -> (r: Option<Vec<Ingredient>>)
    ensures
        match r {
            Some(v) => ingredients_of(lookup(*d, key@)) == Some(v@.map_values(|i: Ingredient| i@)),
            None => ingredients_of(lookup(*d, key@)) is None,
        },
{
    match lookup_value(d, key) {
        Some(DocValue::Array(items)) => {
            let mut out: Vec<Ingredient> = Vec::new();
            let mut i: usize = 0;
            while i < items.len()
                invariant
                    0 <= i <= items@.len(),
                    lookup(*d, key@) == Some(DocValue::Array(*items)),
                    out@.len() == i,
                    forall|j: int| 0 <= j < i ==> #[trigger] ingredient_of(items@[j]) == Some(out@[j]@),
                decreases items@.len() - i,
            {
                match ingredient_value(&items[i]) {
                    Some(ing) => out.push(ing),
                    None => {
                        assert(ingredient_of(items@[i as int]) is None);
                        return None;
                    },
                }
                i += 1;
            }
            assert(out@.map_values(|i: Ingredient| i@) =~= items@.map_values(
                |x: DocValue| ingredient_of(x)->Some_0,
            ));
            Some(out)
        },
        _ => None,
    }
}

/// The media references of the array held under `key`, if every item describes one.
pub fn media_list_field(d: &Document, key: &str) -> (r: Option<Vec<MediaRef>>)
    ensures
        match r {
            Some(v) => media_list_of(lookup(*d, key@)) == Some(v@.map_values(|m: MediaRef| m@)),
            None => media_list_of(lookup(*d, key@)) is None,
        },
{
    match lookup_value(d, key) {
        Some(DocValue::Array(items)) => {
            let mut out: Vec<MediaRef> = Vec::new();
            let mut i: usize = 0;
            while i < items.len()
                invariant
                    0 <= i <= items@.len(),
                    lookup(*d, key@) == Some(DocValue::Array(*items)),
                    out@.len() == i,
                    forall|j: int| 0 <= j < i ==> #[trigger] media_of(items@[j]) == Some(out@[j]@),
                decreases items@.len() - i,
            {
                match media_value(&items[i]) {
                    Some(m) => out.push(m),
                    None => {
                        assert(media_of(items@[i as int]) is None);
                        return None;
                    },
                }
                i += 1;
            }
            assert(out@.map_values(|m: MediaRef| m@) =~= items@.map_values(
                |x: DocValue| media_of(x)->Some_0,
            ));
            Some(out)
        },
        _ => None,
    }
}

/// Decodes a stored document into a recipe. Fails, as a `DbError` with no
/// message, exactly when the document lacks a required field or holds one in
/// the wrong shape.
pub fn decode(d: &Document) -> (r: Result<Recipe, AppError>)
    ensures
        match r {
            Ok(rec) => decoded(*d) == Some(rec@),
            Err(e) => decoded(*d) is None && is_decode_failure(e),
        },
{
    let title = text_field(d, "title");
    let ingredients = ingredient_list_field(d, "ingredients");
    let instructions = text_list_field(d, "instructions");
    let tags = text_list_field(d, "tags");
    let media = media_list_field(d, "media");
    match (title, ingredients, instructions, tags, media) {
        (Some(title), Some(ingredients), Some(instructions), Some(tags), Some(media)) => {
            Ok(Recipe { title, ingredients, instructions, tags, media })
        },
        _ => Err(AppError::undecodable()),
    }
}

/// `v` is a string value holding `t`.
pub open spec fn is_text(v: DocValue, t: Seq<char>) -> bool {
    v is Str && text_of(v) == t
}

/// `v` is an array of string values holding `ts`, in order.
pub open spec fn is_text_list(v: DocValue, ts: Seq<Seq<char>>) -> bool {
    match v {
        DocValue::Array(items) => {
            &&& items@.len() == ts.len()
            &&& forall|i: int| 0 <= i < ts.len() ==> is_text(#[trigger] items@[i], ts[i])
        },
        _ => false,
    }
}

/// `v` is a document of exactly two string entries: `k1` holding `t1`, then
/// `k2` holding `t2`.
pub open spec fn is_pair(v: DocValue, k1: Seq<char>, t1: Seq<char>, k2: Seq<char>, t2: Seq<char>) -> bool {
    match v {
        DocValue::Doc(d) => {
            &&& d.entries@.len() == 2
            &&& d.entries@[0].key@ == k1
            &&& is_text(d.entries@[0].value, t1)
            &&& d.entries@[1].key@ == k2
            &&& is_text(d.entries@[1].value, t2)
        },
        _ => false,
    }
}

/// `v` is an array of ingredient documents holding `ings`, in order.
pub open spec fn is_ingredient_list(v: DocValue, ings: Seq<IngredientView>) -> bool {
    match v {
        DocValue::Array(items) => {
            &&& items@.len() == ings.len()
            &&& forall|i: int|
                0 <= i < ings.len() ==> is_pair(
                    #[trigger] items@[i],
                    "name"@,
                    ings[i].name,
                    "qty"@,
                    ings[i].qty,
                )
        },
        _ => false,
    }
}

/// `v` is an array of media documents holding `media`, in order.
pub open spec fn is_media_list(v: DocValue, media: Seq<MediaRefView>) -> bool {
    match v {
        DocValue::Array(items) => {
            &&& items@.len() == media.len()
            &&& forall|i: int|
                0 <= i < media.len() ==> is_pair(
                    #[trigger] items@[i],
                    "anchor"@,
                    media[i].anchor,
                    "url"@,
                    media[i].url,
                )
        },
        _ => false,
    }
}

/// `d` is the document that stores `r`: the fields `title`, `ingredients`,
/// `instructions`, `tags` and `media`, in that order and nothing else.
pub open spec fn is_encoding(d: Document, r: RecipeView) -> bool {
    let e = d.entries@;
    &&& e.len() == 5
    &&& e[0].key@ == "title"@ && is_text(e[0].value, r.title)
    &&& e[1].key@ == "ingredients"@ && is_ingredient_list(e[1].value, r.ingredients)
    &&& e[2].key@ == "instructions"@ && is_text_list(e[2].value, r.instructions)
    &&& e[3].key@ == "tags"@ && is_text_list(e[3].value, r.tags)
    &&& e[4].key@ == "media"@ && is_media_list(e[4].value, r.media)
}

fn text_value(s: &String) -> (r: DocValue)
    ensures
        is_text(r, s@),
{
    DocValue::Str(s.clone())
}

fn entry(key: &str, value: DocValue) -> (r: Entry)
    ensures
        r.key@ == key@,
        r.value == value,
{
    Entry { key: String::from_str(key), value }
}

fn pair_value(k1: &str, t1: &String, k2: &str, t2: &String) -> (r: DocValue)
    ensures
        is_pair(r, k1@, t1@, k2@, t2@),
{
    let mut entries: Vec<Entry> = Vec::new();
    entries.push(entry(k1, text_value(t1)));
    entries.push(entry(k2, text_value(t2)));
    DocValue::Doc(Document { entries })
}

fn text_list_value(v: &Vec<String>) -> (r: DocValue)
    ensures
        is_text_list(r, texts(v@)),
{
    let mut items: Vec<DocValue> = Vec::new();
    let mut i: usize = 0;
    while i < v.len()
        invariant
            0 <= i <= v@.len(),
            items@.len() == i,
            forall|j: int| 0 <= j < i ==> is_text(#[trigger] items@[j], v@[j]@),
        decreases v@.len() - i,
    {
        items.push(text_value(&v[i]));
        i += 1;
    }
    DocValue::Array(items)
}

fn ingredient_list_value(v: &Vec<Ingredient>) -> (r: DocValue)
    ensures
        is_ingredient_list(r, v@.map_values(|i: Ingredient| i@)),
{
    let mut items: Vec<DocValue> = Vec::new();
    let mut i: usize = 0;
    while i < v.len()
        invariant
            0 <= i <= v@.len(),
            items@.len() == i,
            forall|j: int|
                0 <= j < i ==> is_pair(#[trigger] items@[j], "name"@, v@[j].name@, "qty"@, v@[j].qty@),
        decreases v@.len() - i,
    {
        items.push(pair_value("name", &v[i].name, "qty", &v[i].qty));
        i += 1;
    }
    DocValue::Array(items)
}

fn media_list_value(v: &Vec<MediaRef>) -> (r: DocValue)
    ensures
        is_media_list(r, v@.map_values(|m: MediaRef| m@)),
{
    let mut items: Vec<DocValue> = Vec::new();
    let mut i: usize = 0;
    while i < v.len()
        invariant
            0 <= i <= v@.len(),
            items@.len() == i,
            forall|j: int|
                0 <= j < i ==> is_pair(#[trigger] items@[j], "anchor"@, v@[j].anchor@, "url"@, v@[j].url@),
        decreases v@.len() - i,
    {
        items.push(pair_value("anchor", &v[i].anchor, "url", &v[i].url));
        i += 1;
    }
    DocValue::Array(items)
}

/// Encodes a recipe as a store document. Never fails.
pub fn encode(r: &Recipe) -> (d: Document)
    ensures
        is_encoding(d, r@),
{
    let mut entries: Vec<Entry> = Vec::new();
    entries.push(entry("title", text_value(&r.title)));
    entries.push(entry("ingredients", ingredient_list_value(&r.ingredients)));
    entries.push(entry("instructions", text_list_value(&r.instructions)));
    entries.push(entry("tags", text_list_value(&r.tags)));
    entries.push(entry("media", media_list_value(&r.media)));
    Document { entries }
}

/// The filter that selects the documents whose `title` is exactly `title`.
pub fn title_filter(title: &String) -> (d: Document)
    ensures
        d.entries@.len() == 1,
        d.entries@[0].key@ == "title"@,
        is_text(d.entries@[0].value, title@),
{
    let mut entries: Vec<Entry> = Vec::new();
    entries.push(entry("title", text_value(title)));
    Document { entries }
}

proof fn lemma_pair_fields(v: DocValue, k1: Seq<char>, t1: Seq<char>, k2: Seq<char>, t2: Seq<char>)
    requires
        is_pair(v, k1, t1, k2, t2),
        k1 != k2,
    ensures
        v matches DocValue::Doc(d) && field_text(d, k1) == Some(t1) && field_text(d, k2) == Some(t2),
{
    if let DocValue::Doc(d) = v {
        reveal_with_fuel(lookup_from, 3);
    }
}

/// Decoding the encoding of a recipe gives the recipe back, with every
/// sequence, empty or not, kept in order.
pub proof fn lemma_round_trip(d: Document, r: RecipeView)
    requires
        is_encoding(d, r),
    ensures
        decoded(d) == Some(r),
{
    reveal_strlit("title");
    reveal_strlit("ingredients");
    reveal_strlit("instructions");
    reveal_strlit("tags");
    reveal_strlit("media");
    reveal_strlit("name");
    reveal_strlit("qty");
    reveal_strlit("anchor");
    reveal_strlit("url");
    reveal_with_fuel(lookup_from, 6);
    let e = d.entries@;
    assert("title"@.len() == 5 && "ingredients"@.len() == 11 && "instructions"@.len() == 12);
    assert("tags"@.len() == 4 && "media"@.len() == 5 && "title"@[0] != "media"@[0]);
    assert("title"@ != "ingredients"@ && "title"@ != "instructions"@);
    assert("ingredients"@ != "instructions"@ && "ingredients"@ != "tags"@);
    assert("title"@ != "tags"@ && "instructions"@ != "tags"@);
    assert("title"@ != "media"@ && "ingredients"@ != "media"@);
    assert("instructions"@ != "media"@ && "tags"@ != "media"@);
    assert("name"@.len() == 4 && "qty"@.len() == 3 && "name"@ != "qty"@);
    assert("anchor"@.len() == 6 && "url"@.len() == 3 && "anchor"@ != "url"@);
    assert(lookup(d, "title"@) == Some(e[0].value));
    assert(lookup(d, "ingredients"@) == Some(e[1].value));
    assert(lookup(d, "instructions"@) == Some(e[2].value));
    assert(lookup(d, "tags"@) == Some(e[3].value));
    assert(lookup(d, "media"@) == Some(e[4].value));
    if let DocValue::Array(items) = e[1].value {
        assert forall|i: int| 0 <= i < items@.len() implies #[trigger] ingredient_of(items@[i])
            == Some(r.ingredients[i]) by {
            lemma_pair_fields(items@[i], "name"@, r.ingredients[i].name, "qty"@, r.ingredients[i].qty);
        }
        assert(items@.map_values(|x: DocValue| ingredient_of(x)->Some_0) =~= r.ingredients);
    }
    if let DocValue::Array(items) = e[4].value {
        assert forall|i: int| 0 <= i < items@.len() implies #[trigger] media_of(items@[i])
            == Some(r.media[i]) by {
            lemma_pair_fields(items@[i], "anchor"@, r.media[i].anchor, "url"@, r.media[i].url);
        }
        assert(items@.map_values(|x: DocValue| media_of(x)->Some_0) =~= r.media);
    }
    if let DocValue::Array(items) = e[2].value {
        assert(items@.map_values(|x: DocValue| text_of(x)) =~= r.instructions);
    }
    if let DocValue::Array(items) = e[3].value {
        assert(items@.map_values(|x: DocValue| text_of(x)) =~= r.tags);
    }
}

} // verus!
