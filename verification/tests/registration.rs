use cata::registry::{plugin_init, TypeRegistry};

#[test]
fn register_once_is_idempotent() {
    let mut reg = TypeRegistry::new();
    assert!(!reg.is_registered(&"monodepth".to_owned()));
    assert!(reg.register_once("monodepth".to_owned()));
    assert!(reg.is_registered(&"monodepth".to_owned()));
    // a second attempt collapses to the one actual registration
    assert!(!reg.register_once("monodepth".to_owned()));
    assert!(reg.is_registered(&"monodepth".to_owned()));
}

#[test]
fn plugin_init_registers_every_stage_type() {
    let mut reg = TypeRegistry::new();
    assert!(plugin_init(&mut reg).is_ok());
    for name in ["monodepth", "semseg", "motiontransfer", "facepose", "salientobject"] {
        assert!(reg.is_registered(&name.to_owned()), "missing stage type: {}", name);
    }
}

#[test]
fn plugin_init_tolerates_repeated_loads() {
    let mut reg = TypeRegistry::new();
    assert!(plugin_init(&mut reg).is_ok());
    assert!(plugin_init(&mut reg).is_ok());
    assert!(reg.is_registered(&"semseg".to_owned()));
}
