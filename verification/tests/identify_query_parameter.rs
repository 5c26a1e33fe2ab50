use bedrock_orm::query_builder::IdentifyQueryParameter;

fn uses_query_parameter<T: IdentifyQueryParameter>(_: T) {}

#[derive(Debug, Hash, PartialEq)]
enum MyQueryParameterEnum {
    A,
    B,
}

impl IdentifyQueryParameter for MyQueryParameterEnum {}

#[test]
fn integer_indexed() {
    uses_query_parameter(0usize);
    uses_query_parameter(1usize);
}

#[test]
fn enum_indexed() {
    uses_query_parameter(MyQueryParameterEnum::A);
    uses_query_parameter(MyQueryParameterEnum::B);
}
