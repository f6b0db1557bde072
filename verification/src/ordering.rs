//! The orders in which ratings, columns and challenges are sorted.

use crate::models::{column_position, rating_rank, ratings_to_i32, trophy_col_order};
use crate::models::{Challenge, Rating, TrophyCols};
use crate::text::{lex_order, text_order, title_case};
use std::cmp::Ordering;
use vstd::prelude::*;

verus! {

impl Rating {
    /// Orders ratings by rank, the better medal being the greater.
    pub fn cmp(&self, other: &Rating) -> (order: Ordering)
        ensures
            order == Ordering::Less <==> rating_rank(*self) < rating_rank(*other),
            order == Ordering::Equal <==> rating_rank(*self) == rating_rank(*other),
            order == Ordering::Greater <==> rating_rank(*self) > rating_rank(*other),
    {
        let x = ratings_to_i32(self);
        let y = ratings_to_i32(other);
        if x < y {
            Ordering::Less
        } else if x == y {
            Ordering::Equal
        } else {
            Ordering::Greater
        }
    }
}

impl TrophyCols {
    /// Orders columns by their place in the table, from the left.
    pub fn cmp(&self, other: &TrophyCols) -> (order: Ordering)
        ensures
            order == Ordering::Less <==> column_position(*self) < column_position(*other),
            order == Ordering::Equal <==> column_position(*self) == column_position(*other),
            order == Ordering::Greater <==> column_position(*self) > column_position(*other),
    {
        let x = trophy_col_order(self);
        let y = trophy_col_order(other);
        if x < y {
            Ordering::Less
        } else if x == y {
            Ordering::Equal
        } else {
            Ordering::Greater
        }
    }
}

impl Challenge {
    /// Orders challenges by the name of their reserve as it is shown, in the order of
    /// the dictionary.
    pub fn cmp(&self, other: &Challenge) -> (order: Ordering)
        ensures
            order == Ordering::Less <==> lex_order(
                title_case(self.reserve.ident_spec()),
                title_case(other.reserve.ident_spec()),
            ) < 0,
            order == Ordering::Equal <==> lex_order(
                title_case(self.reserve.ident_spec()),
                title_case(other.reserve.ident_spec()),
            ) == 0,
            order == Ordering::Greater <==> lex_order(
                title_case(self.reserve.ident_spec()),
                title_case(other.reserve.ident_spec()),
            ) > 0,
    {
        let mine = self.reserve.to_string();
        let theirs = other.reserve.to_string();
        let order = text_order(mine.as_str(), theirs.as_str());
        if order < 0 {
            Ordering::Less
        } else if order == 0 {
            Ordering::Equal
        } else {
            Ordering::Greater
        }
    }

    /// The same order; it is total, so there is always an answer.
    pub fn partial_cmp(&self, other: &Challenge) -> (order: Option<Ordering>)
        ensures
            order is Some,
            order->0 == Ordering::Less <==> lex_order(
                title_case(self.reserve.ident_spec()),
                title_case(other.reserve.ident_spec()),
            ) < 0,
            order->0 == Ordering::Equal <==> lex_order(
                title_case(self.reserve.ident_spec()),
                title_case(other.reserve.ident_spec()),
            ) == 0,
            order->0 == Ordering::Greater <==> lex_order(
                title_case(self.reserve.ident_spec()),
                title_case(other.reserve.ident_spec()),
            ) > 0,
    {
        Some(self.cmp(other))
    }
}

} // verus!
