use sql_peas::{Column, Double, State, Statement, Type, Value};

const LIMIT: usize = 1_000_000_000;

fn names(list: &[&str]) -> Vec<String> {
    list.iter().map(|name| name.to_string()).collect()
}

// `INSERT INTO users VALUES (?, ?, ?, ?, ?)`
fn insert_positional() -> Statement {
    Statement::new(vec![None, None, None, None, None], vec![], LIMIT)
}

// `INSERT INTO users VALUES (:id, :name, :age, :photo, :email)`
fn insert_named() -> Statement {
    let parameters = [":id", ":name", ":age", ":photo", ":email"];
    Statement::new(parameters.iter().map(|name| Some(name.to_string())).collect(), vec![], LIMIT)
}

// `SELECT * FROM users`, on a table holding (1, 'Alice', 42.69, X'4269', NULL)
fn select_users() -> Statement {
    Statement::new(vec![], names(&["id", "name", "age", "photo", "email"]), LIMIT)
}

// What SQLite reports for the row (1, 'Alice', 42.69, X'4269', NULL).
fn alice() -> Vec<Column> {
    vec![
        Column {
            kind: Type::Integer,
            integer: 1,
            float: 1.0f64.to_bits(),
            text: Some("1".to_string()),
            blob: Some(b"1".to_vec()),
        },
        Column {
            kind: Type::String,
            integer: 0,
            float: 0.0f64.to_bits(),
            text: Some("Alice".to_string()),
            blob: Some(b"Alice".to_vec()),
        },
        Column {
            kind: Type::Float,
            integer: 42,
            float: 42.69f64.to_bits(),
            text: Some("42.69".to_string()),
            blob: Some(b"42.69".to_vec()),
        },
        Column {
            kind: Type::Binary,
            integer: 0,
            float: 0.0f64.to_bits(),
            text: Some("Bi".to_string()),
            blob: Some(vec![0x42, 0x69]),
        },
        Column { kind: Type::Null, integer: 0, float: 0.0f64.to_bits(), text: None, blob: None },
    ]
}

fn bob() -> Vec<Value> {
    vec![
        Value::Integer(2),
        Value::String("Bob".into()),
        Value::Float(69.42f64.to_bits()),
        Value::Binary([0x69u8, 0x42u8].to_vec()),
        Value::Null,
    ]
}

fn bound(statement: &Statement) -> Vec<Value> {
    (1..=statement.parameter_count()).map(|index| statement.parameter(index).unwrap().clone()).collect()
}

#[test]
fn bind_with_index() {
    let mut statement = insert_positional();

    statement.reset();
    statement.bind(&[(1, 2i64)][..]).unwrap();
    statement.bind((2, "Bob")).unwrap();
    statement.bind((3, Double(69.42f64.to_bits()))).unwrap();
    statement.bind((4, &[0x69u8, 0x42u8][..])).unwrap();
    statement.bind((5, ())).unwrap();
    assert_eq!(bound(&statement), bob());
    assert_eq!(statement.advance(None), State::Done);

    statement.reset();
    statement.bind((1, Some(2i64))).unwrap();
    statement.bind((2, Some("Bob"))).unwrap();
    statement.bind((3, Some(Double(69.42f64.to_bits())))).unwrap();
    statement.bind((4, Some(&[0x69u8, 0x42u8][..]))).unwrap();
    statement.bind((5, None::<&str>)).unwrap();
    assert_eq!(bound(&statement), bob());
    assert_eq!(statement.advance(None), State::Done);

    statement.reset();
    statement.bind(&bob()[..]).unwrap();
    assert_eq!(bound(&statement), bob());
    assert_eq!(statement.advance(None), State::Done);

    statement.reset();
    statement
        .bind(
            &[
                Some(Value::Integer(2)),
                Some(Value::String("Bob".into())),
                Some(Value::Float(69.42f64.to_bits())),
                Some(Value::Binary([0x69u8, 0x42u8].to_vec())),
                Some(Value::Null),
            ][..],
        )
        .unwrap();
    assert_eq!(bound(&statement), bob());
    assert_eq!(statement.advance(None), State::Done);

    statement.reset();
    statement
        .bind(
            &[
                (1, Value::Integer(2)),
                (2, Value::String("Bob".into())),
                (3, Value::Float(69.42f64.to_bits())),
                (4, Value::Binary([0x69u8, 0x42u8].to_vec())),
                (5, Value::Null),
            ][..],
        )
        .unwrap();
    assert_eq!(bound(&statement), bob());
    assert_eq!(statement.advance(None), State::Done);
}

#[test]
fn bind_with_name() {
    let mut statement = insert_named();

    statement.reset();
    statement.bind(&[(":id", 2i64)][..]).unwrap();
    statement.bind((":name", "Bob")).unwrap();
    statement.bind((":age", Double(69.42f64.to_bits()))).unwrap();
    statement.bind((":photo", &[0x69u8, 0x42u8][..])).unwrap();
    statement.bind((":email", ())).unwrap();
    assert_eq!(bound(&statement), bob());
    assert_eq!(statement.advance(None), State::Done);

    statement.reset();
    assert!(statement.bind((":missing", 404i64)).is_err());

    statement.reset();
    statement
        .bind(
            &[
                (":id", Value::Integer(2)),
                (":name", Value::String("Bob".into())),
                (":age", Value::Float(69.42f64.to_bits())),
                (":photo", Value::Binary([0x69u8, 0x42u8].to_vec())),
                (":email", Value::Null),
            ][..],
        )
        .unwrap();
    assert_eq!(bound(&statement), bob());
    assert_eq!(statement.advance(None), State::Done);
}

#[test]
fn read_with_index() {
    let mut statement = select_users();

    assert_eq!(statement.advance(Some(alice())), State::Row);
    assert_eq!(statement.read::<i64, _>(0).unwrap(), 1);
    assert_eq!(statement.read::<String, _>(1).unwrap(), String::from("Alice"));
    assert_eq!(f64::from_bits(statement.read::<Double, _>(2).unwrap().0), 42.69);
    assert_eq!(statement.read::<Vec<u8>, _>(3).unwrap(), vec![0x42, 0x69]);
    assert_eq!(statement.read::<Value, _>(4).unwrap(), Value::Null);
    assert_eq!(statement.advance(None), State::Done);
}

#[test]
fn read_with_index_and_option() {
    let mut statement = select_users();

    assert_eq!(statement.advance(Some(alice())), State::Row);
    assert_eq!(statement.read::<Option<i64>, _>(0).unwrap(), Some(1));
    assert_eq!(statement.read::<Option<String>, _>(1).unwrap(), Some(String::from("Alice")));
    assert_eq!(
        statement.read::<Option<Double>, _>(2).unwrap().map(|x| f64::from_bits(x.0)),
        Some(42.69)
    );
    assert_eq!(statement.read::<Option<Vec<u8>>, _>(3).unwrap(), Some(vec![0x42, 0x69]));
    assert_eq!(statement.read::<Option<String>, _>(4).unwrap(), None);
    assert_eq!(statement.advance(None), State::Done);
}

#[test]
fn read_with_name_and_option() {
    let mut statement = select_users();

    assert_eq!(statement.advance(Some(alice())), State::Row);
    assert_eq!(statement.read::<Option<i64>, _>("id").unwrap(), Some(1));
    assert_eq!(statement.read::<Option<String>, _>("name").unwrap(), Some(String::from("Alice")));
    assert_eq!(
        statement.read::<Option<Double>, _>("age").unwrap().map(|x| f64::from_bits(x.0)),
        Some(42.69)
    );
    assert_eq!(statement.read::<Option<Vec<u8>>, _>("photo").unwrap(), Some(vec![0x42, 0x69]));
    assert_eq!(statement.read::<Option<String>, _>("email").unwrap(), None);
    assert_eq!(statement.advance(None), State::Done);
}

#[test]
fn read_with_name() {
    let mut statement = select_users();

    assert_eq!(statement.advance(Some(alice())), State::Row);
    assert_eq!(statement.read::<i64, _>("id").unwrap(), 1);
    assert_eq!(statement.read::<String, _>("name").unwrap(), String::from("Alice"));
    assert_eq!(f64::from_bits(statement.read::<Double, _>("age").unwrap().0), 42.69);
    assert_eq!(statement.read::<Vec<u8>, _>("photo").unwrap(), vec![0x42, 0x69]);
    assert_eq!(statement.read::<Value, _>("email").unwrap(), Value::Null);
    assert_eq!(statement.advance(None), State::Done);
}

#[test]
fn column_count() {
    let mut statement = select_users();

    assert_eq!(statement.advance(Some(alice())), State::Row);
    assert_eq!(statement.column_count(), 5);
}

#[test]
fn column_name() {
    // `SELECT id, name, age, photo AS user_photo FROM users`
    let statement = Statement::new(vec![], names(&["id", "name", "age", "user_photo"]), LIMIT);

    let names = statement.column_names();
    assert_eq!(names, vec!["id", "name", "age", "user_photo"]);
    assert_eq!("user_photo", statement.column_name(3).unwrap());
}

#[test]
fn column_type() {
    let mut statement = select_users();

    assert_eq!(statement.column_type(0).unwrap(), Type::Null);
    assert_eq!(statement.column_type(1).unwrap(), Type::Null);
    assert_eq!(statement.column_type(2).unwrap(), Type::Null);
    assert_eq!(statement.column_type(3).unwrap(), Type::Null);

    assert_eq!(statement.advance(Some(alice())), State::Row);

    assert_eq!(statement.column_type(0).unwrap(), Type::Integer);
    assert_eq!(statement.column_type(1).unwrap(), Type::String);
    assert_eq!(statement.column_type(2).unwrap(), Type::Float);
    assert_eq!(statement.column_type(3).unwrap(), Type::Binary);
}

#[test]
fn parameter_index() {
    let mut statement = insert_named();
    statement.bind((":id", 2i64)).unwrap();
    statement.bind((":name", "Bob")).unwrap();
    statement.bind((":age", Double(69.42f64.to_bits()))).unwrap();
    statement.bind((":photo", &[0x69u8, 0x42u8][..])).unwrap();
    statement.bind((":email", ())).unwrap();
    assert_eq!(statement.parameter_index(":missing"), None);
    assert_eq!(statement.advance(None), State::Done);
}

fn word(text: &str) -> Column {
    Column {
        kind: Type::String,
        integer: 0,
        float: 0.0f64.to_bits(),
        text: Some(text.to_string()),
        blob: Some(text.as_bytes().to_vec()),
    }
}

fn integer(number: i64) -> Column {
    Column {
        kind: Type::Integer,
        integer: number,
        float: (number as f64).to_bits(),
        text: Some(number.to_string()),
        blob: Some(number.to_string().into_bytes()),
    }
}

#[test]
fn count() {
    // `SELECT value FROM english WHERE value LIKE ?`; SQLite reports six rows for `%type`.
    let matches = ["archetype", "genotype", "phenotype", "prototype", "stereotype", "type"];

    let mut statement = Statement::new(vec![None], names(&["value"]), LIMIT);
    statement.bind((1, "%type")).unwrap();
    assert_eq!(statement.parameter(1), Some(&Value::String("%type".to_string())));
    let mut rows = matches.iter().map(|text| vec![word(text)]);
    let mut count = 0;
    while let State::Row = statement.advance(rows.next()) {
        assert!(statement.read::<String, _>("value").unwrap().ends_with("type"));
        count += 1;
    }
    assert_eq!(count, 6);

    // `SELECT value FROM english WHERE value LIKE '%type'`
    let mut statement = Statement::new(vec![], names(&["value"]), LIMIT);
    let mut rows = matches.iter().map(|text| vec![word(text)]);
    let mut count = 0;
    while let State::Row = statement.advance(rows.next()) {
        count += 1;
    }
    assert_eq!(count, 6);
}

#[test]
fn workflow_1() {
    struct Database {
        statement: Statement,
    }

    impl Database {
        fn run_once(&mut self) -> Result<(), sql_peas::Error> {
            let statement = &mut self.statement;
            statement.reset();
            statement.bind((":age", 40i64))?;
            assert_eq!(statement.parameter(1), Some(&Value::Integer(40)));
            // `SELECT name FROM users WHERE age > :age` gives Alice.
            assert_eq!(statement.advance(Some(vec![word("Alice")])), State::Row);
            Ok(())
        }
    }

    let statement = Statement::new(vec![Some(":age".to_string())], names(&["name"]), LIMIT);
    let mut database = Database { statement };

    for _ in 0..5 {
        assert!(database.run_once().is_ok());
    }
}

#[test]
fn workflow_2() {
    // The two inserts take no parameters and give no rows.
    let mut insert = Statement::new(vec![], vec![], LIMIT);
    assert_eq!(insert.advance(None), State::Done);
    let mut insert = Statement::new(vec![], vec![], LIMIT);
    assert_eq!(insert.advance(None), State::Done);

    // `SELECT * FROM users WHERE name = 'jean'` gives ('jean', 50).
    let mut statement = Statement::new(vec![], names(&["name", "age"]), LIMIT);
    assert_eq!(statement.advance(Some(vec![word("jean"), integer(50)])), State::Row);

    let age = statement.read::<i64, _>("age").unwrap();
    assert_eq!(age, 50);
}
