use adhesive::bridge::ColumnType;
use adhesive::fusion::{
    plan_registration, return_type_to_method_name, CreateFunctionRequest, DefinitionStatement,
    FunctionDefinition, RegistrationPlan, ResolutionTarget,
};
use adhesive::jvm::interpret_call_state;
use adhesive::JvmFunctionError;

fn request(
    return_type: ColumnType,
    language: Option<&str>,
    definition: Option<DefinitionStatement>,
) -> CreateFunctionRequest {
    CreateFunctionRequest {
        name: "f1".to_string(),
        args: vec![ColumnType::Int64, ColumnType::Int64],
        return_type,
        language: language.map(|l| l.to_string()),
        definition,
    }
}

#[test]
fn plan_dispatches_source_text_to_the_compiler() {
    let source = "public class NewClass {}";
    let req = request(
        ColumnType::Int64,
        None,
        Some(DefinitionStatement::SingleQuotedDef(source.to_string())),
    );
    let plan: RegistrationPlan = plan_registration(&req).unwrap();
    assert_eq!("computeBigInt", plan.method_name);
    assert_eq!(vec![ColumnType::Int64, ColumnType::Int64], plan.argument_types);
    assert!(matches!(plan.target, ResolutionTarget::CompileSource(s) if s == source));
    assert!(
        matches!(plan.definition, FunctionDefinition::Java { class_definition } if class_definition == source)
    );
}

#[test]
fn plan_dispatches_class_name_to_the_resolver() {
    let class_name = "com.github.milenkovicm.adhesive.example.BasicExample";
    let req = request(
        ColumnType::Int64,
        Some("CLASS"),
        Some(DefinitionStatement::SingleQuotedDef(class_name.to_string())),
    );
    let plan = plan_registration(&req).unwrap();
    assert!(matches!(plan.target, ResolutionTarget::ResolveClass(s) if s == class_name));
    assert!(matches!(plan.definition, FunctionDefinition::Fqn { fqn } if fqn == class_name));
}

#[test]
fn plan_language_tag_is_case_insensitive_and_defaults() {
    let def = || Some(DefinitionStatement::SingleQuotedDef("class C {}".to_string()));
    for language in [None, Some("JAVA"), Some("Java"), Some("java")] {
        let plan = plan_registration(&request(ColumnType::Int64, language, def())).unwrap();
        assert!(matches!(plan.target, ResolutionTarget::CompileSource(_)));
    }
}

#[test]
fn plan_rejects_unsupported_return_type() {
    let def = Some(DefinitionStatement::SingleQuotedDef("class C {}".to_string()));
    let result = plan_registration(&request(ColumnType::Int32, None, def));
    assert!(matches!(result, Err(JvmFunctionError::UnsupportedTypeError(_))));
}

#[test]
fn plan_rejects_missing_definition() {
    let result = plan_registration(&request(ColumnType::Int64, None, None));
    assert!(matches!(result, Err(JvmFunctionError::InvalidDefinitionError(_))));
}

#[test]
fn plan_rejects_double_dollar_definition() {
    let def = Some(DefinitionStatement::DoubleDollarDef("class C {}".to_string()));
    let result = plan_registration(&request(ColumnType::Int64, None, def));
    assert!(matches!(result, Err(JvmFunctionError::InvalidDefinitionError(_))));
}

#[test]
fn plan_rejects_unknown_language() {
    let def = Some(DefinitionStatement::SingleQuotedDef("class C {}".to_string()));
    let result = plan_registration(&request(ColumnType::Int64, Some("scala"), def));
    assert!(matches!(result, Err(JvmFunctionError::InvalidDefinitionError(_))));
}

#[test]
fn return_type_mapping_supports_only_int64() {
    assert_eq!("computeBigInt", return_type_to_method_name(&ColumnType::Int64).unwrap());
    for t in [ColumnType::Int32, ColumnType::Utf8, ColumnType::Boolean] {
        assert!(matches!(
            return_type_to_method_name(&t),
            Err(JvmFunctionError::UnsupportedTypeError(_))
        ));
    }
}

#[test]
fn pending_exception_becomes_managed_runtime_exception() {
    let result = interpret_call_state(true);
    assert!(matches!(result, Err(JvmFunctionError::ManagedRuntimeException(_))));
    assert!(interpret_call_state(false).is_ok());
}

#[test]
fn error_message_is_kept() {
    let e = JvmFunctionError::ClassNotFoundError("no such class".to_string());
    assert_eq!("no such class", e.message());
}
