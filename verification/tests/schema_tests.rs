use todo_core::schema::{
    ProvisionError, ProvisionStep, Provisioning, ANALYZER_STATEMENT, INDEX_STATEMENT,
    TABLE_STATEMENT,
};

#[test]
fn statements_define_table_analyzer_and_index() {
    assert_eq!(
        TABLE_STATEMENT,
        "DEFINE TABLE todo SCHEMAFULL; DEFINE FIELD subject ON todo TYPE string; DEFINE FIELD description ON todo TYPE string; DEFINE FIELD due_date ON todo TYPE datetime; DEFINE FIELD is_done ON todo TYPE bool; DEFINE FIELD created_at ON todo TYPE datetime; DEFINE FIELD updated_at ON todo TYPE datetime;"
    );
    assert_eq!(
        ANALYZER_STATEMENT,
        "DEFINE ANALYZER english TOKENIZERS class FILTERS snowball(english);"
    );
    assert_eq!(
        INDEX_STATEMENT,
        "DEFINE INDEX todoSearchIndex ON TABLE todo COLUMNS subject SEARCH ANALYZER english BM25;"
    );
}

#[test]
fn each_step_has_its_statement() {
    assert_eq!(ProvisionStep::Table.statement(), TABLE_STATEMENT);
    assert_eq!(ProvisionStep::Analyzer.statement(), ANALYZER_STATEMENT);
    assert_eq!(ProvisionStep::Index.statement(), INDEX_STATEMENT);
}

#[test]
fn provisioning_runs_table_then_analyzer_then_index() {
    let mut state = Provisioning::start();
    let mut sent: Vec<&str> = Vec::new();
    while let Some(statement) = state.statement() {
        sent.push(statement);
        state = state.advance(Ok(())).unwrap();
    }
    assert_eq!(sent, vec![TABLE_STATEMENT, ANALYZER_STATEMENT, INDEX_STATEMENT]);
    assert_eq!(state, Provisioning::Complete);
}

#[test]
fn provisioning_advances_one_step_at_a_time() {
    assert_eq!(Provisioning::start(), Provisioning::Due(ProvisionStep::Table));
    assert_eq!(
        Provisioning::Due(ProvisionStep::Table).advance(Ok(())),
        Ok(Provisioning::Due(ProvisionStep::Analyzer))
    );
    assert_eq!(
        Provisioning::Due(ProvisionStep::Analyzer).advance(Ok(())),
        Ok(Provisioning::Due(ProvisionStep::Index))
    );
    assert_eq!(Provisioning::Due(ProvisionStep::Index).advance(Ok(())), Ok(Provisioning::Complete));
}

#[test]
fn provisioning_failure_names_the_step() {
    for step in [ProvisionStep::Table, ProvisionStep::Analyzer, ProvisionStep::Index] {
        assert_eq!(
            Provisioning::Due(step).advance(Err("connection reset".to_string())),
            Err(ProvisionError { step, message: "connection reset".to_string() })
        );
    }
}

#[test]
fn provisioning_can_be_run_again() {
    for _ in 0..2 {
        let mut state = Provisioning::start();
        let mut sent = 0;
        while state.statement().is_some() {
            state = state.advance(Ok(())).unwrap();
            sent += 1;
        }
        assert_eq!(sent, 3);
    }
}

#[test]
fn complete_provisioning_has_nothing_to_send() {
    assert_eq!(Provisioning::Complete.statement(), None);
    assert_eq!(Provisioning::Complete.advance(Ok(())), Ok(Provisioning::Complete));
    assert_eq!(
        Provisioning::Complete.advance(Err("late".to_string())),
        Ok(Provisioning::Complete)
    );
}
