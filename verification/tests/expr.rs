use hirpdag::schema_expr::Expr;
use hirpdag::schema_expr::ExprKind;
use hirpdag::schema_expr::HirpdagRewriteMemoized;
use hirpdag::schema_expr::HirpdagRewriter;
use hirpdag::schema_expr::SchemaTables;
use hirpdag::schema_expr::Variables;

#[test]
fn expr_normalizer_test() {
    let tables = SchemaTables::new();
    let n2: Expr = Expr::new(&tables, ExprKind::Num(2));
    let n3: Expr = Expr::new(&tables, ExprKind::Num(3));
    let n6: Expr = Expr::new(&tables, ExprKind::Num(6));
    assert_ne!(n2, n3);
    assert_ne!(n2, n6);
    assert_ne!(n3, n6);

    let n2n3: Expr = Expr::new(&tables, ExprKind::Mul(vec![n2.clone(), n3.clone()]));

    // 2 * 3 == 6
    assert_eq!(n2n3, n6);

    let va: Expr = Expr::new(&tables, ExprKind::Var("a".to_string()));

    let n2n3va: Expr = Expr::new(&tables, ExprKind::Mul(vec![n2, n3, va.clone()]));
    let n6va: Expr = Expr::new(&tables, ExprKind::Mul(vec![n6, va]));

    // 2 * 3 * a == 6 * a
    // Note that this uses pointer equality, not a deep tree comparison.
    assert_eq!(n2n3va, n6va);
}

struct Substitute<'a> {
    tables: &'a SchemaTables,
    var: String,
    s: Expr,
}

impl<'a> Substitute<'a> {
    fn new(tables: &'a SchemaTables, var: String, s: Expr) -> HirpdagRewriteMemoized<Self> {
        HirpdagRewriteMemoized::new(Self { tables, var, s })
    }
}

impl<'a> HirpdagRewriter for Substitute<'a> {
    fn tables(&self) -> &SchemaTables {
        self.tables
    }

    fn rewrite_expr(&mut self, x: &Expr) -> Expr {
        if let ExprKind::Var(name) = &x.get().x {
            if *name == self.var {
                return self.s.clone();
            }
        }
        x.default_rewrite(self)
    }

    fn rewrite_variables(&mut self, x: &Variables) -> Variables {
        x.default_rewrite(self)
    }
}

#[test]
fn expr_substitute_test() {
    let tables = SchemaTables::new();
    let n2: Expr = Expr::new(&tables, ExprKind::Num(2));
    let n3: Expr = Expr::new(&tables, ExprKind::Num(3));
    let n6: Expr = Expr::new(&tables, ExprKind::Num(6));

    let va: Expr = Expr::new(&tables, ExprKind::Var("a".to_string()));
    let vb: Expr = Expr::new(&tables, ExprKind::Var("b".to_string()));

    let vavb: Expr = Expr::new(&tables, ExprKind::Mul(vec![va.clone(), vb.clone()]));
    let n2vb: Expr = Expr::new(&tables, ExprKind::Mul(vec![n2.clone(), vb.clone()]));

    let mut sub_va_n2 = Substitute::new(&tables, "a".to_string(), n2);
    let vavb_va_n2 = sub_va_n2.rewrite(&vavb);
    assert_eq!(vavb_va_n2, n2vb);

    let mut sub_vb_n3 = Substitute::new(&tables, "b".to_string(), n3);
    let n2vb_vb_n3 = sub_vb_n3.rewrite(&n2vb);
    assert_eq!(n2vb_vb_n3, n6);
}
