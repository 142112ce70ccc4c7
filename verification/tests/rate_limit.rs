use std::time::{Duration, Instant};

use tower::{Service, ServiceExt};

use jabroni::db::SqliteDatabase;
use jabroni::handler::App;
use jabroni::requests::{ApiRequest, DeleteRowRequest};
use jabroni::values::JsonValue;

fn delete_request(id: &str) -> ApiRequest {
    ApiRequest::DeleteRow(DeleteRowRequest {
        table: "users".to_string(),
        key: JsonValue::Int(1),
        request_id: id.to_string(),
    })
}

#[test]
fn second_request_waits_for_the_admission_window() {
    let conn = rusqlite::Connection::open("file:ratelimit1?mode=memory&cache=shared").unwrap();
    conn.execute_batch("CREATE TABLE users (id INTEGER PRIMARY KEY, name TEXT)").unwrap();
    let db = SqliteDatabase::new("file:ratelimit1?mode=memory&cache=shared").unwrap();
    let app = App::new(db);

    let rt = tokio::runtime::Builder::new_current_thread().enable_time().build().unwrap();
    rt.block_on(async move {
        let mut svc = tower::ServiceBuilder::new()
            .layer(tower::limit::RateLimitLayer::new(1, Duration::from_secs(1)))
            .service_fn(move |req: ApiRequest| {
                let outcome = app.call(req);
                async move { Ok::<_, std::convert::Infallible>(outcome) }
            });
        let started = Instant::now();
        let first = svc.ready().await.unwrap().call(delete_request("1")).await.unwrap();
        assert!(first.is_ok());
        let second = svc.ready().await.unwrap().call(delete_request("2")).await.unwrap();
        assert!(second.is_ok());
        let elapsed = started.elapsed();
        assert!(
            elapsed >= Duration::from_millis(900),
            "second request was admitted after only {elapsed:?}"
        );
    });
}
