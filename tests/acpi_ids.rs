use batmon::acpi_ids::{find_acpi_group_id, get_family_and_group, CtrlAttr, McastGrpAttr};
use batmon::error::Error;

fn group(name: &str, id: u32) -> Vec<McastGrpAttr> {
    vec![McastGrpAttr::Id(id), McastGrpAttr::Name(name.as_bytes().to_vec())]
}

#[test]
fn acpi_group_is_found_among_others() {
    let groups = vec![group("other_group", 3), group("acpi_mc_group", 7)];
    assert_eq!(find_acpi_group_id(&groups), Some(7));
    assert_eq!(find_acpi_group_id(&vec![group("other_group", 3)]), None);
    assert_eq!(find_acpi_group_id(&vec![vec![McastGrpAttr::Id(4)]]), None);
    assert_eq!(
        find_acpi_group_id(&vec![vec![McastGrpAttr::Name(b"acpi_mc_group".to_vec())]]),
        None
    );
}

#[test]
fn family_and_group_are_resolved() {
    let attrs = vec![
        CtrlAttr::Other,
        CtrlAttr::FamilyId(27),
        CtrlAttr::McastGroups(vec![group("acpi_mc_group", 5)]),
    ];
    assert_eq!(get_family_and_group(&attrs), Ok((27, 5)));
}

#[test]
fn missing_ids_are_errors() {
    let no_family = vec![CtrlAttr::McastGroups(vec![group("acpi_mc_group", 5)])];
    assert_eq!(get_family_and_group(&no_family), Err(Error::FamilyNotFound));
    let no_group = vec![
        CtrlAttr::FamilyId(27),
        CtrlAttr::McastGroups(vec![group("other_group", 5)]),
    ];
    assert_eq!(get_family_and_group(&no_group), Err(Error::GroupNotFound));
    assert_eq!(get_family_and_group(&Vec::new()), Err(Error::FamilyNotFound));
}
