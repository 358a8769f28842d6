use std::cell::Cell;

use hirpdag::schema_messages::EnumB;
use hirpdag::schema_messages::HirpdagRewriteMemoized;
use hirpdag::schema_messages::HirpdagRewriter;
use hirpdag::schema_messages::MessageA;
use hirpdag::schema_messages::MessageC;
use hirpdag::schema_messages::SchemaTables;

struct IdentityRewriter<'a> {
    tables: &'a SchemaTables,
}

impl<'a> HirpdagRewriter for IdentityRewriter<'a> {
    fn tables(&self) -> &SchemaTables {
        self.tables
    }

    fn rewrite_message_a(&mut self, x: &MessageA) -> MessageA {
        x.default_rewrite(self)
    }

    fn rewrite_message_c(&mut self, x: &MessageC) -> MessageC {
        x.default_rewrite(self)
    }
}

/// The identity rewriter rebuilds every node from unchanged parts, so
/// interning hands back the very cells the inputs hold.
#[test]
fn identity_rewrite_test() {
    let tables = SchemaTables::new();
    let a: MessageA = MessageA::new(&tables, 32, "sup".to_string(), None, 1);
    let b: MessageA = MessageA::new(&tables, 32, "dog".to_string(), Some(a.clone()), 1);
    let c: MessageC = MessageC::new(&tables, 4, EnumB::Baz(Some(b.clone())));

    let mut t = HirpdagRewriteMemoized::new(IdentityRewriter { tables: &tables });
    let ta = t.rewrite(&a);
    let tb = t.rewrite(&b);
    let tc = t.rewrite(&c);

    assert_eq!(ta, a);
    assert_eq!(tb, b);
    assert_eq!(tc, c);
}

struct ExtendLeaf<'a> {
    tables: &'a SchemaTables,
    doot: MessageA,
}

impl<'a> HirpdagRewriter for ExtendLeaf<'a> {
    fn tables(&self) -> &SchemaTables {
        self.tables
    }

    fn rewrite_message_a(&mut self, x: &MessageA) -> MessageA {
        if x.get().c.is_none() {
            let data = x.get();
            return MessageA::new(
                self.tables,
                data.a,
                data.b.clone(),
                Some(self.doot.clone()),
                data.d,
            );
        }
        x.default_rewrite(self)
    }

    fn rewrite_message_c(&mut self, x: &MessageC) -> MessageC {
        x.default_rewrite(self)
    }
}

/// Extending every leaf of a two-node chain: the innermost node gains a
/// sentinel child, and the outer node's other fields are preserved.
#[test]
fn leaf_extension_test() {
    let tables = SchemaTables::new();
    let a: MessageA = MessageA::new(&tables, 32, "sup".to_string(), None, 0);
    let b: MessageA = MessageA::new(&tables, 32, "dog".to_string(), Some(a.clone()), 0);

    let sentinel = MessageA::new(&tables, 0, "DOOT".to_string(), None, 7007);
    let mut t = HirpdagRewriteMemoized::new(ExtendLeaf {
        tables: &tables,
        doot: sentinel.clone(),
    });
    let tb = t.rewrite(&b);

    assert_eq!(tb.get().a, 32);
    assert_eq!(tb.get().b, "dog");
    let inner = tb.get().c.as_ref().unwrap();
    assert_eq!(inner.get().b, "sup");
    let leaf_child = inner.get().c.as_ref().unwrap();
    assert_eq!(leaf_child, &sentinel);
    assert_eq!(leaf_child.get().b, "DOOT");
}

struct CountingRewriter<'a> {
    tables: &'a SchemaTables,
    hits: &'a Cell<u32>,
}

impl<'a> HirpdagRewriter for CountingRewriter<'a> {
    fn tables(&self) -> &SchemaTables {
        self.tables
    }

    fn rewrite_message_a(&mut self, x: &MessageA) -> MessageA {
        self.hits.set(self.hits.get() + 1);
        x.default_rewrite(self)
    }

    fn rewrite_message_c(&mut self, x: &MessageC) -> MessageC {
        x.default_rewrite(self)
    }
}

/// Memoization invokes the inner rewriter at most once per distinct input
/// handle, and repeated rewrites return the same handle.
#[test]
fn memoize_single_invocation_test() {
    let tables = SchemaTables::new();
    let a: MessageA = MessageA::new(&tables, 7, "leaf".to_string(), None, 0);

    let hits = Cell::new(0);
    let mut t = HirpdagRewriteMemoized::new(CountingRewriter { tables: &tables, hits: &hits });

    let r1 = t.rewrite(&a);
    let r2 = t.rewrite(&a);

    assert_eq!(hits.get(), 1);
    assert_eq!(r1, r2);
    assert_eq!(r1, a);
}
