use reply_bot::chat::ChatKind;
use reply_bot::gate::Gate;
use reply_bot::handler::{on_read, on_sent, receive_with, Inbound, Step};
use reply_bot::store::{get_random_response, random_text_statement, schema_statement};
use sqlx::{Connection, SqliteConnection};

fn runtime() -> tokio::runtime::Runtime {
    tokio::runtime::Builder::new_current_thread().enable_all().build().unwrap()
}

async fn memory_store() -> SqliteConnection {
    SqliteConnection::connect("sqlite::memory:").await.unwrap()
}

async fn bootstrap(store: &mut SqliteConnection) -> Result<(), sqlx::Error> {
    let sql = schema_statement();
    sqlx::query(&sql).execute(&mut *store).await?;
    Ok(())
}

async fn fetch(store: &mut SqliteConnection) -> Option<String> {
    let sql = random_text_statement();
    get_random_response(sqlx::query_scalar::<_, String>(&sql).fetch_optional(&mut *store).await)
}

async fn insert(store: &mut SqliteConnection, id: i64, text: &str) {
    sqlx::query("INSERT INTO responses (id, text) VALUES (?, ?)")
        .bind(id)
        .bind(text)
        .execute(&mut *store)
        .await
        .unwrap();
}

#[test]
fn statement_texts() {
    assert_eq!(
        schema_statement(),
        "CREATE TABLE IF NOT EXISTS responses (id INTEGER PRIMARY KEY, text TEXT NOT NULL)"
    );
    assert_eq!(random_text_statement(), "SELECT text FROM responses ORDER BY RANDOM() LIMIT 1");
}

#[test]
fn both_statements_name_one_table() {
    let created = schema_statement();
    let read = random_text_statement();
    let created_name = created
        .strip_prefix("CREATE TABLE IF NOT EXISTS ")
        .and_then(|rest| rest.split(' ').next())
        .unwrap();
    let read_name =
        read.strip_prefix("SELECT text FROM ").and_then(|rest| rest.split(' ').next()).unwrap();
    assert_eq!(created_name, "responses");
    assert_eq!(read_name, created_name);
}

#[test]
fn fetch_outcomes_reduce_to_text_or_nothing() {
    assert_eq!(
        get_random_response::<String>(Ok(Some(String::from("hello")))),
        Some(String::from("hello"))
    );
    assert_eq!(get_random_response::<String>(Ok(None)), None);
    assert_eq!(get_random_response(Err(String::from("locked"))), None);
    assert_eq!(get_random_response(Err(sqlx::Error::RowNotFound)), None);
}

#[test]
fn schema_bootstrap_twice_leaves_one_table() {
    runtime().block_on(async {
        let mut store = memory_store().await;
        assert!(bootstrap(&mut store).await.is_ok());
        assert!(bootstrap(&mut store).await.is_ok());
        let tables: Vec<String> =
            sqlx::query_scalar("SELECT name FROM sqlite_master WHERE type = 'table'")
                .fetch_all(&mut store)
                .await
                .unwrap();
        assert_eq!(tables, vec![String::from("responses")]);
        let columns: Vec<(i64, String, String, i64, Option<String>, i64)> =
            sqlx::query_as("PRAGMA table_info(responses)").fetch_all(&mut store).await.unwrap();
        assert_eq!(columns.len(), 2);
        assert_eq!((columns[0].1.as_str(), columns[0].2.as_str()), ("id", "INTEGER"));
        assert_eq!(columns[0].5, 1);
        assert_eq!((columns[1].1.as_str(), columns[1].2.as_str()), ("text", "TEXT"));
        assert_eq!(columns[1].3, 1);
        assert_eq!(columns[1].5, 0);
    });
}

#[test]
fn schema_bootstrap_keeps_rows() {
    runtime().block_on(async {
        let mut store = memory_store().await;
        bootstrap(&mut store).await.unwrap();
        insert(&mut store, 1, "hello").await;
        bootstrap(&mut store).await.unwrap();
        assert_eq!(fetch(&mut store).await, Some(String::from("hello")));
    });
}

#[test]
fn fetch_from_empty_table_is_nothing() {
    runtime().block_on(async {
        let mut store = memory_store().await;
        bootstrap(&mut store).await.unwrap();
        assert_eq!(fetch(&mut store).await, None);
    });
}

#[test]
fn fetch_without_table_is_nothing() {
    runtime().block_on(async {
        let mut store = memory_store().await;
        assert_eq!(fetch(&mut store).await, None);
    });
}

#[test]
fn fetch_brings_every_row_sooner_or_later() {
    runtime().block_on(async {
        let mut store = memory_store().await;
        bootstrap(&mut store).await.unwrap();
        insert(&mut store, 1, "hello").await;
        insert(&mut store, 2, "world").await;
        let mut hello = 0;
        let mut world = 0;
        for _ in 0..200 {
            match fetch(&mut store).await.as_deref() {
                Some("hello") => hello += 1,
                Some("world") => world += 1,
                other => panic!("not a row of the table: {other:?}"),
            }
        }
        assert!(hello > 0 && world > 0);
    });
}

#[test]
fn handling_against_a_real_table() {
    runtime().block_on(async {
        let mut store = memory_store().await;
        bootstrap(&mut store).await.unwrap();
        insert(&mut store, 1, "hello").await;
        insert(&mut store, 2, "world").await;
        let gate = Gate::quarter();
        let inbound = Inbound { chat_id: 42, kind: ChatKind::Supergroup };

        let mut sends = Vec::new();
        let mut step: Step<String> = receive_with(&gate, &inbound, gate.threshold / 2);
        let result = loop {
            step = match step {
                Step::ReadStore { chat_id } => {
                    let sql = random_text_statement();
                    let read = sqlx::query_scalar::<_, String>(&sql)
                        .fetch_optional(&mut store)
                        .await;
                    on_read(chat_id, read)
                }
                Step::Send(message) => {
                    sends.push(message);
                    on_sent(Ok(()))
                }
                Step::Finish(result) => break result,
            };
        };
        assert_eq!(result, Ok(()));
        assert_eq!(sends.len(), 1);
        assert_eq!(sends[0].chat_id, 42);
        assert!(sends[0].text == "hello" || sends[0].text == "world");

        let step: Step<String> = receive_with(&gate, &inbound, gate.threshold);
        assert_eq!(step, Step::Finish(Ok(())));
    });
}
