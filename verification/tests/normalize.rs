use hirpdag::schema_even::EvenNumber;
use hirpdag::schema_even::HirpdagRewriteMemoized;
use hirpdag::schema_even::HirpdagRewriter;
use hirpdag::schema_even::Holder;
use hirpdag::schema_even::SchemaTables;

#[test]
fn round_down_test() {
    println!("========");
    let tables = SchemaTables::new();
    let a: EvenNumber = EvenNumber::new(&tables, 2);
    let b: EvenNumber = EvenNumber::new(&tables, 3);
    let c: EvenNumber = EvenNumber::new(&tables, 4);

    assert_eq!(a, b);
    assert_ne!(b, c);
}

struct AddN<'a> {
    tables: &'a SchemaTables,
    n: u32,
}

impl<'a> AddN<'a> {
    fn new(tables: &'a SchemaTables, x: u32) -> HirpdagRewriteMemoized<Self> {
        HirpdagRewriteMemoized::new(Self { tables, n: x })
    }
}

impl<'a> HirpdagRewriter for AddN<'a> {
    fn tables(&self) -> &SchemaTables {
        self.tables
    }

    fn rewrite_even_number(&mut self, x: &EvenNumber) -> EvenNumber {
        EvenNumber::new(self.tables, x.get().a + self.n)
    }

    fn rewrite_holder(&mut self, x: &Holder) -> Holder {
        x.default_rewrite(self)
    }
}

#[test]
fn rewrite_round_down_test() {
    println!("========");
    let tables = SchemaTables::new();
    let a: EvenNumber = EvenNumber::new(&tables, 2);
    let b: EvenNumber = EvenNumber::new(&tables, 3);
    let c: EvenNumber = EvenNumber::new(&tables, 4);

    assert_eq!(a, b);
    assert_ne!(b, c);

    let x: Holder = Holder::new(&tables, a);
    let y: Holder = Holder::new(&tables, b);
    let z: Holder = Holder::new(&tables, c);

    assert_eq!(x, y);
    assert_ne!(y, z);

    let mut add3 = AddN::new(&tables, 3);
    let x3 = add3.rewrite(&x);

    assert_eq!(x3, z);
}
