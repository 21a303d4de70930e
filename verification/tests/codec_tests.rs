use todo_core::error::{DataIntegrityError, RecordField};
use todo_core::identifier::{RecordId, TodoId};
use todo_core::timestamp::{Timestamp, MAX_SECONDS, MIN_SECONDS};
use todo_core::todo::{Todo, TodoModel, TodoResponse};

fn at(seconds: i64, nanos: u32) -> Timestamp {
    Timestamp::new(seconds, nanos).unwrap()
}

fn sample_todo() -> Todo {
    Todo {
        id: TodoId(0x0168_d3ff_00cf_8659_add4_9a16_d369_c5ff),
        subject: "Buy milk".to_string(),
        description: "2%".to_string(),
        is_done: false,
        due_date: at(1_893_456_000, 0),
        created_at: at(1_709_194_500, 120_300_000),
        updated_at: at(1_709_194_501, 0),
    }
}

fn sample_model() -> TodoModel {
    TodoModel {
        id: RecordId { table: "todo".to_string(), key: "01D39ZY06FGSCTVN4T2V9PKHFZ".to_string() },
        subject: "Buy milk".to_string(),
        description: "2%".to_string(),
        is_done: false,
        due_date: "2030-01-01T00:00:00Z".to_string(),
        created_at: "2024-02-29T08:15:00.120300Z".to_string(),
        updated_at: "2024-02-29T08:15:01Z".to_string(),
    }
}

fn fault(field: RecordField, raw: &str) -> Result<Todo, DataIntegrityError> {
    Err(DataIntegrityError { field, raw: raw.to_string() })
}

#[test]
fn encode_gives_the_stored_shape() {
    assert_eq!(sample_todo().encode(), sample_model());
}

#[test]
fn decode_gives_the_entity() {
    assert_eq!(Todo::decode(sample_model()), Ok(sample_todo()));
}

#[test]
fn decode_inverts_encode() {
    let todo = sample_todo();
    assert_eq!(Todo::decode(todo.encode()), Ok(todo));
}

#[test]
fn decode_inverts_encode_at_the_edges() {
    let edge = Todo {
        id: TodoId(u128::MAX),
        subject: String::new(),
        description: "line one\nline two \u{1F600}".to_string(),
        is_done: true,
        due_date: at(MIN_SECONDS, 0),
        created_at: at(MAX_SECONDS, 999_999_999),
        updated_at: at(1_483_228_799, 1_000_000_000),
    };
    assert_eq!(Todo::decode(edge.encode()), Ok(edge));
    let digits = Todo { id: TodoId::parse("01234567890123456789012345").unwrap(), ..sample_todo() };
    assert_eq!(digits.encode().id.key, "01234567890123456789012345");
    assert_eq!(Todo::decode(digits.encode()), Ok(digits));
}

#[test]
fn decode_copies_text_and_flag_verbatim() {
    let model = TodoModel {
        subject: "  spaced  ".to_string(),
        description: String::new(),
        is_done: true,
        ..sample_model()
    };
    let todo = Todo::decode(model).unwrap();
    assert_eq!(todo.subject, "  spaced  ");
    assert_eq!(todo.description, "");
    assert!(todo.is_done);
}

#[test]
fn decode_accepts_other_spellings_of_the_same_instant() {
    let model = TodoModel {
        due_date: "2030-01-01 09:00:00+09:00".to_string(),
        ..sample_model()
    };
    assert_eq!(Todo::decode(model), Ok(sample_todo()));
}

#[test]
fn decode_reports_unparsable_due_date() {
    let model = TodoModel { due_date: "next tuesday".to_string(), ..sample_model() };
    assert_eq!(Todo::decode(model), fault(RecordField::DueDate, "next tuesday"));
}

#[test]
fn decode_reports_unparsable_created_at() {
    let model = TodoModel { created_at: "2024-02-30T08:15:00Z".to_string(), ..sample_model() };
    assert_eq!(Todo::decode(model), fault(RecordField::CreatedAt, "2024-02-30T08:15:00Z"));
}

#[test]
fn decode_reports_unparsable_updated_at() {
    let model = TodoModel { updated_at: String::new(), ..sample_model() };
    assert_eq!(Todo::decode(model), fault(RecordField::UpdatedAt, ""));
}

#[test]
fn decode_reports_malformed_identifier() {
    let model = TodoModel {
        id: RecordId { table: "todo".to_string(), key: "42".to_string() },
        ..sample_model()
    };
    assert_eq!(Todo::decode(model), fault(RecordField::Id, "42"));
}

#[test]
fn decode_reports_the_first_field_at_fault() {
    let all_bad = TodoModel {
        id: RecordId { table: "todo".to_string(), key: "bad key".to_string() },
        due_date: "bad due".to_string(),
        created_at: "bad created".to_string(),
        updated_at: "bad updated".to_string(),
        ..sample_model()
    };
    assert_eq!(Todo::decode(all_bad.clone()), fault(RecordField::Id, "bad key"));
    let id_good = TodoModel { id: sample_model().id, ..all_bad };
    assert_eq!(Todo::decode(id_good.clone()), fault(RecordField::DueDate, "bad due"));
    let due_good = TodoModel { due_date: sample_model().due_date, ..id_good };
    assert_eq!(Todo::decode(due_good.clone()), fault(RecordField::CreatedAt, "bad created"));
    let created_good = TodoModel { created_at: sample_model().created_at, ..due_good };
    assert_eq!(Todo::decode(created_good), fault(RecordField::UpdatedAt, "bad updated"));
}

#[test]
fn decode_reports_timestamp_outside_the_range() {
    let model = TodoModel { due_date: "+10000-01-01T00:00:00Z".to_string(), ..sample_model() };
    assert_eq!(Todo::decode(model), fault(RecordField::DueDate, "+10000-01-01T00:00:00Z"));
}

#[test]
fn from_parts_takes_what_was_read() {
    let todo = Todo::from_parts(
        sample_model(),
        Ok(TodoId(7)),
        Some(at(1, 0)),
        Some(at(2, 0)),
        Some(at(3, 0)),
    );
    assert_eq!(
        todo,
        Ok(Todo {
            id: TodoId(7),
            subject: "Buy milk".to_string(),
            description: "2%".to_string(),
            is_done: false,
            due_date: at(1, 0),
            created_at: at(2, 0),
            updated_at: at(3, 0),
        })
    );
}

#[test]
fn from_parts_names_the_first_missing_part() {
    let id_error = DataIntegrityError { field: RecordField::Id, raw: "elsewhere".to_string() };
    assert_eq!(
        Todo::from_parts(sample_model(), Err(id_error.clone()), None, None, None),
        Err(id_error)
    );
    assert_eq!(
        Todo::from_parts(sample_model(), Ok(TodoId(7)), None, None, None),
        fault(RecordField::DueDate, "2030-01-01T00:00:00Z")
    );
    assert_eq!(
        Todo::from_parts(sample_model(), Ok(TodoId(7)), Some(at(1, 0)), None, None),
        fault(RecordField::CreatedAt, "2024-02-29T08:15:00.120300Z")
    );
    assert_eq!(
        Todo::from_parts(sample_model(), Ok(TodoId(7)), Some(at(1, 0)), Some(at(2, 0)), None),
        fault(RecordField::UpdatedAt, "2024-02-29T08:15:01Z")
    );
    assert_eq!(
        Todo::from_parts(sample_model(), Ok(TodoId(7)), None, Some(at(2, 0)), None),
        fault(RecordField::DueDate, "2030-01-01T00:00:00Z")
    );
}

#[test]
fn record_field_names() {
    assert_eq!(RecordField::Id.name(), "id");
    assert_eq!(RecordField::DueDate.name(), "due_date");
    assert_eq!(RecordField::CreatedAt.name(), "created_at");
    assert_eq!(RecordField::UpdatedAt.name(), "updated_at");
}

#[test]
fn response_renders_the_identifier_as_text() {
    let response = TodoResponse::from(sample_todo());
    assert_eq!(
        response,
        TodoResponse {
            id: "01D39ZY06FGSCTVN4T2V9PKHFZ".to_string(),
            subject: "Buy milk".to_string(),
            description: "2%".to_string(),
            is_done: false,
            due_date: at(1_893_456_000, 0),
            created_at: at(1_709_194_500, 120_300_000),
            updated_at: at(1_709_194_501, 0),
        }
    );
}

#[test]
fn refreshed_moves_updated_at_forward_only() {
    let todo = sample_todo();
    let later = todo.clone().refreshed(at(1_709_194_600, 0));
    assert_eq!(later, Todo { updated_at: at(1_709_194_600, 0), ..sample_todo() });
    let earlier = todo.clone().refreshed(at(1_709_194_400, 0));
    assert_eq!(earlier, sample_todo());
    let same = todo.refreshed(at(1_709_194_501, 0));
    assert_eq!(same, sample_todo());
}
