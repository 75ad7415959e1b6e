use todo_api::articles::{
    create_article, delete_article, fetch_article, fetch_articles, update_article,
};
use todo_api::response::{Payload, Response};

fn body(r: Response) -> (u16, String) {
    match r.payload {
        Payload::Text(t) => (r.status, t),
        other => panic!("expected a text body, got {:?}", other),
    }
}

#[test]
fn article_handlers_acknowledge() {
    assert_eq!(body(create_article()), (200, "create article".to_string()));
    assert_eq!(body(update_article()), (200, "update article".to_string()));
    assert_eq!(body(delete_article()), (200, "delete article".to_string()));
    assert_eq!(body(fetch_article()), (200, "fetch article".to_string()));
    assert_eq!(body(fetch_articles()), (200, "fetch articles".to_string()));
}
