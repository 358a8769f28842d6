use hirpdag::schema_messages::EnumB;
use hirpdag::schema_messages::HirpdagRewriteMemoized;
use hirpdag::schema_messages::HirpdagRewriter;
use hirpdag::schema_messages::MessageA;
use hirpdag::schema_messages::MessageC;
use hirpdag::schema_messages::SchemaTables;

#[test]
fn foobar1() {
    println!("========");
    let tables = SchemaTables::new();
    let a: MessageA = MessageA::new(&tables, 32, "sup".to_string(), None, 1);
    let b: MessageA = MessageA::new(&tables, 32, "dog".to_string(), Some(a.clone()), 1);
    let c: MessageA = MessageA::new(&tables, 32, "sup".to_string(), None, 1);
    let d: MessageA = MessageA::new(&tables, 32, "dog".to_string(), Some(c.clone()), 1);

    let h: MessageC = MessageC::new(&tables, 32, EnumB::Brr("aaa".to_string()));
    println!("{:?}", h.get().e);
    let h2: MessageC = MessageC::new(&tables, 32, EnumB::Brr("aaa".to_string()));
    println!("{:?}", h2.get().e);

    assert_eq!(a, c);
    assert_eq!(b, d);
}

struct MessageAExtendLeaf<'a> {
    tables: &'a SchemaTables,
    doot: MessageA,
}

impl<'a> MessageAExtendLeaf<'a> {
    fn new(tables: &'a SchemaTables) -> HirpdagRewriteMemoized<Self> {
        let extension = MessageA::new(tables, 0, "DOOT".to_string(), None, 7007);
        HirpdagRewriteMemoized::new(Self { tables, doot: extension })
    }
}

impl<'a> HirpdagRewriter for MessageAExtendLeaf<'a> {
    fn tables(&self) -> &SchemaTables {
        self.tables
    }

    fn rewrite_message_a(&mut self, x: &MessageA) -> MessageA {
        if x.get().c.is_none() {
            let data = x.get();
            return MessageA::new(
                self.tables,
                data.a,
                data.b.clone(),
                Some(self.doot.clone()),
                data.d,
            );
        }

        // In the case where we don't want to make changes to extend the leaf,
        // we want to apply the default rewrite which will apply the rewrite
        // transitively to all applicable members.
        x.default_rewrite(self)
    }

    fn rewrite_message_c(&mut self, x: &MessageC) -> MessageC {
        x.default_rewrite(self)
    }
}

#[test]
fn foobar3() {
    println!("========");
    let tables = SchemaTables::new();
    let a: MessageA = MessageA::new(&tables, 32, "sup".to_string(), None, 0);
    let b: MessageA = MessageA::new(&tables, 32, "dog".to_string(), Some(a.clone()), 0);

    let mut t = MessageAExtendLeaf::new(&tables);
    println!("a\n{:?}", a);
    let ta = t.rewrite(&a);
    println!("t(a)\n{:?}", ta);

    let mut t = MessageAExtendLeaf::new(&tables);
    println!("b\n{:?}", b);
    let tb = t.rewrite(&b);
    println!("t(b)\n{:?}", tb);
}

#[test]
fn foobar4() {
    println!("========");
    let tables = SchemaTables::new();
    let a: MessageA = MessageA::new(&tables, 32, "sup".to_string(), None, 0);
    let b: MessageA = MessageA::new(&tables, 32, "dog".to_string(), Some(a.clone()), 0);

    let c: MessageC = MessageC::new(&tables, 4, EnumB::Baz(Some(b)));
    println!("c\n{:?}", c);

    let mut t = MessageAExtendLeaf::new(&tables);
    let tc = t.rewrite(&c);
    println!("t(c)\n{:?}", tc);
}
