use serde_attributes::{Rename, RenameIndependent};

#[test]
fn test_ser_name_and_de_name() {
    let name = "foo".to_owned();

    assert_eq!(
        Rename::Normal(name.to_owned()).ser_name(),
        Some(name.as_str())
    );
    assert_eq!(
        Rename::Normal(name.to_owned()).de_name(),
        Some(name.as_str())
    );

    assert_eq!(
        Rename::Independent(RenameIndependent::Serialize(name.to_owned())).ser_name(),
        Some(name.as_str())
    );
    assert_eq!(
        Rename::Independent(RenameIndependent::Serialize(name.to_owned())).de_name(),
        None
    );

    assert_eq!(
        Rename::Independent(RenameIndependent::Deserialize(name.to_owned())).ser_name(),
        None
    );
    assert_eq!(
        Rename::Independent(RenameIndependent::Deserialize(name.to_owned())).de_name(),
        Some(name.as_str())
    );

    assert_eq!(
        Rename::Independent(RenameIndependent::Both {
            serialize: name.to_owned(),
            deserialize: name.to_owned(),
        })
        .ser_name(),
        Some(name.as_str())
    );
    assert_eq!(
        Rename::Independent(RenameIndependent::Both {
            serialize: name.to_owned(),
            deserialize: name.to_owned(),
        })
        .de_name(),
        Some(name.as_str())
    );
}
