//! The typed recipe model and its mathematical view.

use vstd::prelude::*;

verus! {

/// An ingredient used in a recipe: a name and a free-form quantity.
#[derive(Debug, Clone, PartialEq, Eq)]
pub struct Ingredient {
    pub name: String,
    pub qty: String,
}

/// A reference to some media in a recipe: a label and a location.
#[derive(Debug, Clone, PartialEq, Eq)]
pub struct MediaRef {
    pub anchor: String,
    pub url: String,
}

/// A recipe. Every sequence keeps the order in which it was stored.
#[derive(Debug, Clone, PartialEq, Eq)]
pub struct Recipe {
    pub title: String,
    pub ingredients: Vec<Ingredient>,
    pub instructions: Vec<String>,
    pub tags: Vec<String>,
    pub media: Vec<MediaRef>,
}

/// The value of an ingredient.
pub struct IngredientView {
    pub name: Seq<char>,
    pub qty: Seq<char>,
}

/// The value of a media reference.
pub struct MediaRefView {
    pub anchor: Seq<char>,
    pub url: Seq<char>,
}

/// The value of a recipe.
pub struct RecipeView {
    pub title: Seq<char>,
    pub ingredients: Seq<IngredientView>,
    pub instructions: Seq<Seq<char>>,
    pub tags: Seq<Seq<char>>,
    pub media: Seq<MediaRefView>,
}

impl View for Ingredient {
    type V = IngredientView;

    open spec fn view(&self) -> IngredientView {
        IngredientView { name: self.name@, qty: self.qty@ }
    }
}

impl View for MediaRef {
    type V = MediaRefView;

    open spec fn view(&self) -> MediaRefView {
        MediaRefView { anchor: self.anchor@, url: self.url@ }
    }
}

/// The contents of a sequence of strings.
pub open spec fn texts(v: Seq<String>) -> Seq<Seq<char>> {
    v.map_values(|s: String| s@)
}

impl View for Recipe {
    type V = RecipeView;

    open spec fn view(&self) -> RecipeView {
        RecipeView {
            title: self.title@,
            ingredients: self.ingredients@.map_values(|i: Ingredient| i@),
            instructions: texts(self.instructions@),
            tags: texts(self.tags@),
            media: self.media@.map_values(|m: MediaRef| m@),
        }
    }
}

} // verus!
