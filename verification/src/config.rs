//! Backend configuration for the schema generator.
//!
//! A schema declaration may carry arguments choosing the reference-handle,
//! table and shared-table variants, and a flag saying the user supplies the
//! normalizing constructor.  Arguments are applied in order over the
//! defaults, later ones overriding earlier ones of the same kind.  Parsing
//! the declaration's token stream is the generator front end's business;
//! this module holds the configuration itself.

use vstd::prelude::*;

verus! {

/// One configuration argument.
pub enum HirpdagArg {
    /// Normalizer will be defined by user for construction.
    Normalizer,
    /// Hashconsing strong reference type specified by user.
    ReferenceType(String),
    /// Hashconsing weak reference type specified by user.
    ReferenceWeakType(String),
    /// Hashconsing table type specified by user.
    /// The table must be compatible with the reference type used.
    TableType(String),
    /// Hashconsing table sharing type specified by user.
    TableSharedType(String),
    /// Builder for hashconsing table sharing type specified by user.
    BuildTableSharedType(String),
}

/// The arguments of one schema declaration, in source order.
pub struct HirpdagArgs {
    pub args: Vec<HirpdagArg>,
}

/// A mathematical picture of a configuration: the flag and the five type
/// names as character sequences.
pub struct ConfigModel {
    pub normalizer: bool,
    pub reference_type: Seq<char>,
    pub reference_weak_type: Seq<char>,
    pub table_type: Seq<char>,
    pub tableshared_type: Seq<char>,
    pub build_tableshared_type: Seq<char>,
}

/// One argument applied over a configuration.
pub open spec fn apply_arg(c: ConfigModel, a: HirpdagArg) -> ConfigModel {
    match a {
        HirpdagArg::Normalizer => ConfigModel { normalizer: true, ..c },
        HirpdagArg::ReferenceType(name) => ConfigModel { reference_type: name@, ..c },
        HirpdagArg::ReferenceWeakType(name) => ConfigModel { reference_weak_type: name@, ..c },
        HirpdagArg::TableType(name) => ConfigModel { table_type: name@, ..c },
        HirpdagArg::TableSharedType(name) => ConfigModel { tableshared_type: name@, ..c },
        HirpdagArg::BuildTableSharedType(name) => ConfigModel {
            build_tableshared_type: name@,
            ..c
        },
    }
}

/// A whole argument list applied over a configuration, left to right.
pub open spec fn apply_args(c: ConfigModel, s: Seq<HirpdagArg>) -> ConfigModel
    decreases s.len(),
{
    if s.len() == 0 {
        c
    } else {
        apply_arg(apply_args(c, s.drop_last()), s.last())
    }
}

pub struct HirpdagConfig {
    normalizer: bool,
    reference_type: String,
    reference_weak_type: String,
    table_type: String,
    tableshared_type: String,
    build_tableshared_type: String,
}

impl HirpdagConfig {
    pub closed spec fn view(&self) -> ConfigModel {
        ConfigModel {
            normalizer: self.normalizer,
            reference_type: self.reference_type@,
            reference_weak_type: self.reference_weak_type@,
            table_type: self.table_type@,
            tableshared_type: self.tableshared_type@,
            build_tableshared_type: self.build_tableshared_type@,
        }
    }

    /// The configuration before any argument: atomic references and the
    /// hash-indexed table with a linear fallback, shared across eight
    /// locked shards.
    pub open spec fn default_model() -> ConfigModel {
        ConfigModel {
            normalizer: false,
            reference_type: "hirpdag::reference_arc::RefArc<D>"@,
            reference_weak_type: "hirpdag::reference_arc::RefArcWeak<D>"@,
            table_type: "ImplTable<D>"@,
            tableshared_type: "ImplTableShared<D>"@,
            build_tableshared_type: "ImplBuildTableShared<D>"@,
        }
    }

    fn default() -> (c: Self)
        ensures
            c@ == Self::default_model(),
    {
        Self {
            normalizer: false,
            reference_type: "hirpdag::reference_arc::RefArc<D>".to_string(),
            reference_weak_type: "hirpdag::reference_arc::RefArcWeak<D>".to_string(),
            table_type: "ImplTable<D>".to_string(),
            tableshared_type: "ImplTableShared<D>".to_string(),
            build_tableshared_type: "ImplBuildTableShared<D>".to_string(),
        }
    }

    /// Build the configuration the arguments describe: the defaults, with
    /// each argument applied in order.
    pub fn from(args: &HirpdagArgs) -> (c: Self)
        ensures
            c@ == apply_args(Self::default_model(), args.args@),
    {
        let mut config = Self::default();
        let mut i: usize = 0;
        while i < args.args.len()
            invariant
                i <= args.args@.len(),
                config@ == apply_args(Self::default_model(), args.args@.take(i as int)),
            decreases args.args@.len() - i,
        {
            proof {
                assert(args.args@.take(i + 1 as int).drop_last() =~= args.args@.take(i as int));
                assert(args.args@.take(i + 1 as int).last() == args.args@[i as int]);
            }
            match &args.args[i] {
                HirpdagArg::Normalizer => {
                    config.normalizer = true;
                },
                HirpdagArg::ReferenceType(name) => {
                    config.reference_type = name.clone();
                },
                HirpdagArg::ReferenceWeakType(name) => {
                    config.reference_weak_type = name.clone();
                },
                HirpdagArg::TableType(name) => {
                    config.table_type = name.clone();
                },
                HirpdagArg::TableSharedType(name) => {
                    config.tableshared_type = name.clone();
                },
                HirpdagArg::BuildTableSharedType(name) => {
                    config.build_tableshared_type = name.clone();
                },
            }
            i = i + 1;
        }
        proof {
            assert(args.args@.take(args.args@.len() as int) =~= args.args@);
        }
        config
    }

    pub fn has_normalizer(&self) -> (r: bool)
        ensures
            r == self@.normalizer,
    {
        self.normalizer
    }
}

} // verus!
