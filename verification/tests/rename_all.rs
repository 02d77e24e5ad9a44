use serde_attributes::{RenameAll, RenameAllIndependent, RenameRule};

#[test]
fn test_ser_rule_and_de_rule() {
    assert_eq!(
        RenameAll::Normal(RenameRule::LowerCase).ser_rule(),
        Some(&RenameRule::LowerCase)
    );
    assert_eq!(
        RenameAll::Normal(RenameRule::LowerCase).de_rule(),
        Some(&RenameRule::LowerCase)
    );

    assert_eq!(
        RenameAll::Independent(RenameAllIndependent::Serialize(RenameRule::LowerCase)).ser_rule(),
        Some(&RenameRule::LowerCase)
    );
    assert_eq!(
        RenameAll::Independent(RenameAllIndependent::Serialize(RenameRule::LowerCase)).de_rule(),
        None
    );

    assert_eq!(
        RenameAll::Independent(RenameAllIndependent::Deserialize(RenameRule::LowerCase)).ser_rule(),
        None
    );
    assert_eq!(
        RenameAll::Independent(RenameAllIndependent::Deserialize(RenameRule::LowerCase)).de_rule(),
        Some(&RenameRule::LowerCase)
    );

    assert_eq!(
        RenameAll::Independent(RenameAllIndependent::Both {
            serialize: RenameRule::LowerCase,
            deserialize: RenameRule::UpperCase,
        })
        .ser_rule(),
        Some(&RenameRule::LowerCase)
    );
    assert_eq!(
        RenameAll::Independent(RenameAllIndependent::Both {
            serialize: RenameRule::LowerCase,
            deserialize: RenameRule::UpperCase,
        })
        .de_rule(),
        Some(&RenameRule::UpperCase)
    );
}
