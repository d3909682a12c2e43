use rspack_plugin_javascript::module_type::{
    module_type_to_is_module, IsModule, ModuleType, SourceType,
};

#[test]
fn esm_is_parsed_as_module_and_dynamic_as_script() {
    assert_eq!(module_type_to_is_module(&ModuleType::JsEsm), IsModule::Bool(true));
    assert_eq!(module_type_to_is_module(&ModuleType::JsDynamic), IsModule::Bool(false));
    assert_eq!(module_type_to_is_module(&ModuleType::JsAuto), IsModule::Unknown);
    assert_eq!(module_type_to_is_module(&ModuleType::Other(7)), IsModule::Unknown);
}

#[test]
fn js_predicates_tell_the_flavours_apart() {
    assert!(ModuleType::JsAuto.is_js_auto());
    assert!(!ModuleType::JsAuto.is_js_esm());
    assert!(ModuleType::JsDynamic.is_js_dynamic());
    assert!(!ModuleType::JsEsm.is_js_dynamic());
    assert!(ModuleType::JsEsm.is_js_esm());
    assert!(!ModuleType::Other(0).is_js_auto());
}

#[test]
fn module_type_keys_do_not_collide() {
    assert_eq!(ModuleType::JsAuto.key(), 0);
    assert_eq!(ModuleType::JsDynamic.key(), 1);
    assert_eq!(ModuleType::JsEsm.key(), 2);
    assert_eq!(ModuleType::Other(0).key(), 3);
    assert_eq!(ModuleType::Other(u32::MAX).key(), 4294967298);
}

#[test]
fn source_type_keys_do_not_collide() {
    assert_eq!(SourceType::JavaScript.key(), 0);
    assert_eq!(SourceType::Asset.key(), 1);
    assert_eq!(SourceType::Other(0).key(), 2);
    assert_eq!(SourceType::Other(u32::MAX).key(), 4294967297);
}
