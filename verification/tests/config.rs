use hirpdag::config::HirpdagArg;
use hirpdag::config::HirpdagArgs;
use hirpdag::config::HirpdagConfig;

#[test]
fn config_default_test() {
    let config = HirpdagConfig::from(&HirpdagArgs { args: vec![] });
    assert!(!config.has_normalizer());
}

#[test]
fn config_args_test() {
    let args = HirpdagArgs {
        args: vec![
            HirpdagArg::ReferenceType("hirpdag::reference_rc::RefRc<D>".to_string()),
            HirpdagArg::Normalizer,
        ],
    };
    let config = HirpdagConfig::from(&args);
    assert!(config.has_normalizer());
}
