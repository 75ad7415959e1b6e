//! The article handlers, which only acknowledge a request with a fixed text.
use vstd::prelude::*;
use crate::response::{text, text_response, Response};

verus! {

/// Handler `create_article`: 200 "create article".
pub fn create_article() -> (r: Response)
    ensures
        r@ == text_response(200, "create article"@),
{
    text(200, "create article")
}

/// Handler `update_article`: 200 "update article".
pub fn update_article() -> (r: Response)
    ensures
        r@ == text_response(200, "update article"@),
{
    text(200, "update article")
}

/// Handler `delete_article`: 200 "delete article".
pub fn delete_article() -> (r: Response)
    ensures
        r@ == text_response(200, "delete article"@),
{
    text(200, "delete article")
}

/// Handler `fetch_article`: 200 "fetch article".
pub fn fetch_article() -> (r: Response)
    ensures
        r@ == text_response(200, "fetch article"@),
{
    text(200, "fetch article")
}

/// Handler `fetch_articles`: 200 "fetch articles".
pub fn fetch_articles() -> (r: Response)
    ensures
        r@ == text_response(200, "fetch articles"@),
{
    text(200, "fetch articles")
}

} // verus!
