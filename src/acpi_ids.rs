//! Finding the id of the ACPI event family and of its multicast group in
//! the reply of the generic-netlink control family.
use vstd::prelude::*;
use crate::error::Error;

verus! {

/// An attribute of one multicast group in a control reply.
#[derive(Clone, Debug)]
pub enum McastGrpAttr {
    /// The group's name, as bytes.
    Name(Vec<u8>),
    /// The group's id.
    Id(u32),
    /// Any other attribute.
    Other,
}

/// An attribute of a control reply.
#[derive(Clone, Debug)]
pub enum CtrlAttr {
    /// The id of the family that the reply describes.
    FamilyId(u16),
    /// The family's multicast groups, each one a list of attributes.
    McastGroups(Vec<Vec<McastGrpAttr>>),
    /// Any other attribute.
    Other,
}

/// The group name "acpi_mc_group".
pub open spec fn acpi_group_name() -> Seq<u8> {
    seq![97u8, 99u8, 112u8, 105u8, 95u8, 109u8, 99u8, 95u8, 103u8, 114u8, 111u8, 117u8, 112u8]
}

/// Over the attributes of a group: whether one names the ACPI group,
/// whether one names another group, and the last id given.
pub open spec fn scan_group(g: Seq<McastGrpAttr>) -> (bool, bool, Option<u32>)
    decreases g.len(),
{
    if g.len() == 0 {
        (false, false, None)
    } else {
        let (named, other, id) = scan_group(g.drop_last());
        match g.last() {
            McastGrpAttr::Name(n) => if n@ == acpi_group_name() {
                (true, other, id)
            } else {
                (named, true, id)
            },
            McastGrpAttr::Id(x) => (named, other, Some(x)),
            McastGrpAttr::Other => (named, other, id),
        }
    }
}

/// The id of a group whose name is the ACPI group's, and no other.
pub open spec fn acpi_group_id(g: Seq<McastGrpAttr>) -> Option<u32> {
    let (named, other, id) = scan_group(g);
    if named && !other {
        id
    } else {
        None
    }
}

/// The id of the first group in `gs`, from index `i`, that is the ACPI group.
pub open spec fn find_group_from(gs: Seq<Vec<McastGrpAttr>>, i: int) -> Option<u32>
    decreases gs.len() - i,
{
    if i >= gs.len() {
        None
    } else {
        match acpi_group_id(gs[i]@) {
            Some(x) => Some(x),
            None => find_group_from(gs, i + 1),
        }
    }
}

/// The first family id among the attributes from index `i`.
pub open spec fn family_from(a: Seq<CtrlAttr>, i: int) -> Option<u16>
    decreases a.len() - i,
{
    if i >= a.len() {
        None
    } else {
        match a[i] {
            CtrlAttr::FamilyId(x) => Some(x),
            _ => family_from(a, i + 1),
        }
    }
}

/// The id of the first ACPI group among the attributes from index `i`.
pub open spec fn group_from(a: Seq<CtrlAttr>, i: int) -> Option<u32>
    decreases a.len() - i,
{
    if i >= a.len() {
        None
    } else {
        match a[i] {
            CtrlAttr::McastGroups(gs) => match find_group_from(gs@, 0) {
                Some(x) => Some(x),
                None => group_from(a, i + 1),
            },
            _ => group_from(a, i + 1),
        }
    }
}

fn is_acpi_group_name(n: &Vec<u8>) -> (r: bool)
    ensures
        r == (n@ == acpi_group_name()),
{
    let r = n.len() == 13 && n[0] == 97u8 && n[1] == 99u8 && n[2] == 112u8 && n[3] == 105u8 && n[4]
        == 95u8 && n[5] == 109u8 && n[6] == 99u8 && n[7] == 95u8 && n[8] == 103u8 && n[9] == 114u8
        && n[10] == 111u8 && n[11] == 117u8 && n[12] == 112u8;
    proof {
        if r {
            assert(n@ =~= acpi_group_name());
        }
        if n@ == acpi_group_name() {
            assert(n@[12] == 112u8);
        }
    }
    r
}

/// The id of a group whose name is the ACPI group's, and no other.
fn group_id_if_acpi(g: &Vec<McastGrpAttr>) -> (r: Option<u32>)
    ensures
        r == acpi_group_id(g@),
{
    let mut named = false;
    let mut other = false;
    let mut id: Option<u32> = None;
    let mut i: usize = 0;
    while i < g.len()
        invariant
            0 <= i <= g@.len(),
            scan_group(g@.subrange(0, i as int)) == (named, other, id),
        decreases g@.len() - i,
    {
        let ghost p = g@.subrange(0, i + 1);
        assert(p.drop_last() =~= g@.subrange(0, i as int));
        match &g[i] {
            McastGrpAttr::Name(n) => {
                if is_acpi_group_name(n) {
                    named = true;
                } else {
                    other = true;
                }
            },
            McastGrpAttr::Id(x) => {
                id = Some(*x);
            },
            McastGrpAttr::Other => {},
        }
        i = i + 1;
    }
    assert(g@.subrange(0, i as int) =~= g@);
    if named && !other {
        id
    } else {
        None
    }
}

/// The id of the first group of the list that is the ACPI group: the one
/// that is named "acpi_mc_group" and carries an id. Other groups are
/// ignored.
pub fn find_acpi_group_id(groups: &Vec<Vec<McastGrpAttr>>) -> (r: Option<u32>)
    ensures
        r == find_group_from(groups@, 0),
{
    let mut i: usize = 0;
    while i < groups.len()
        invariant
            0 <= i <= groups@.len(),
            find_group_from(groups@, 0) == find_group_from(groups@, i as int),
        decreases groups@.len() - i,
    {
        match group_id_if_acpi(&groups[i]) {
            Some(x) => return Some(x),
            None => {},
        }
        i = i + 1;
    }
    None
}

/// The id of the ACPI event family and of its multicast group, from the
/// attributes of the control family's reply: the first family id, and the
/// first ACPI group of any group list. Fails where either is missing.
pub fn get_family_and_group(attrs: &Vec<CtrlAttr>) -> (r: Result<(u16, u32), Error>)
    ensures
        family_from(attrs@, 0) is None ==> r == Err::<(u16, u32), Error>(Error::FamilyNotFound),
        family_from(attrs@, 0) is Some && group_from(attrs@, 0) is None ==> r == Err::<
            (u16, u32),
            Error,
        >(Error::GroupNotFound),
        family_from(attrs@, 0) matches Some(f) ==> (group_from(attrs@, 0) matches Some(g) ==> r
            == Ok::<(u16, u32), Error>((f, g))),
{
    let mut family: Option<u16> = None;
    let mut group: Option<u32> = None;
    let mut i: usize = 0;
    while i < attrs.len()
        invariant
            0 <= i <= attrs@.len(),
            family is None ==> family_from(attrs@, 0) == family_from(attrs@, i as int),
            family is Some ==> family_from(attrs@, 0) == family,
            group is None ==> group_from(attrs@, 0) == group_from(attrs@, i as int),
            group is Some ==> group_from(attrs@, 0) == group,
        decreases attrs@.len() - i,
    {
        match &attrs[i] {
            CtrlAttr::FamilyId(x) => {
                if family.is_none() {
                    family = Some(*x);
                }
            },
            CtrlAttr::McastGroups(gs) => {
                if group.is_none() {
                    group = find_acpi_group_id(gs);
                }
            },
            CtrlAttr::Other => {},
        }
        i = i + 1;
    }
    match family {
        None => Err(Error::FamilyNotFound),
        Some(f) => match group {
            None => Err(Error::GroupNotFound),
            Some(g) => Ok((f, g)),
        },
    }
}

} // verus!
