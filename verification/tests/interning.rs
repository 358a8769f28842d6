use hirpdag::schema_even::EvenNumber;
use hirpdag::schema_even::SchemaTables;

/// Two constructions of the same value yield one cell; a different value
/// yields another.
#[test]
fn unique_cell_test() {
    let tables = SchemaTables::new();
    let a = EvenNumber::spawn(&tables, 8);
    let b = EvenNumber::spawn(&tables, 8);
    let c = EvenNumber::spawn(&tables, 10);
    assert_eq!(a, b);
    assert_ne!(a, c);

    // Identity implies equality: one cell, one value.
    assert_eq!(a.get().a, b.get().a);
}

/// After every strong handle to a value is dropped, its weak entry decays;
/// a later construction of the same value succeeds on a fresh cell, and
/// constructions after that share it.
#[test]
fn decay_reclaim_test() {
    let tables = SchemaTables::new();
    {
        let a = EvenNumber::spawn(&tables, 8);
        assert_eq!(a.get().a, 8);
    }
    let b = EvenNumber::spawn(&tables, 8);
    assert_eq!(b.get().a, 8);
    assert_eq!(b.get_meta().get_count(), 1);
    let c = EvenNumber::spawn(&tables, 8);
    assert_eq!(b, c);
}

#[test]
fn meta_values_test() {
    let tables = hirpdag::schema_messages::SchemaTables::new();
    let a = hirpdag::schema_messages::MessageA::new(&tables, 32, "sup".to_string(), None, 1);
    let b = hirpdag::schema_messages::MessageA::new(
        &tables,
        32,
        "dog".to_string(),
        Some(a.clone()),
        1,
    );
    assert_eq!(a.get_meta().get_count(), 1);
    assert_eq!(a.get_meta().get_height(), 1);
    assert_eq!(a.get_meta().get_flags(), 0);
    assert_eq!(b.get_meta().get_count(), 2);
    assert_eq!(b.get_meta().get_height(), 2);
}

#[test]
fn expr_meta_values_test() {
    let tables = hirpdag::schema_expr::SchemaTables::new();
    let va = hirpdag::schema_expr::Expr::new(
        &tables,
        hirpdag::schema_expr::ExprKind::Var("a".to_string()),
    );
    let vb = hirpdag::schema_expr::Expr::new(
        &tables,
        hirpdag::schema_expr::ExprKind::Var("b".to_string()),
    );
    let m = hirpdag::schema_expr::Expr::new(
        &tables,
        hirpdag::schema_expr::ExprKind::Mul(vec![va.clone(), vb.clone()]),
    );
    assert_eq!(va.get_meta().get_count(), 1);
    assert_eq!(m.get_meta().get_count(), 3);
    assert_eq!(m.get_meta().get_height(), 2);
}
