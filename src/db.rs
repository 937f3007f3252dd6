use vstd::prelude::*;
use vstd::string::StringExecFns;

use crate::auth::OWNER_PERMISSION;
use crate::error::Error;
use crate::text::str_eq;

verus! {

/// Ordering and paging asked for by a list query. `order` names a column,
/// with a leading `-` for descending order.
pub struct ListParams {
    pub order: Option<String>,
    pub offset: Option<i64>,
    pub limit: Option<i64>,
}

/// The validated ordering and paging of a list query: `order_by` is a column
/// followed by `asc` or `desc`.
pub struct ListClause {
    pub order_by: Option<String>,
    pub offset: Option<i64>,
    pub limit: Option<i64>,
}

/// The column that `order` names, and the direction it asks for.
pub open spec fn order_parts(order: Seq<char>) -> (Seq<char>, Seq<char>) {
    if order.len() > 0 && order[0] == '-' {
        (order.drop_first(), seq!['d', 'e', 's', 'c'])
    } else {
        (order, seq!['a', 's', 'c'])
    }
}

/// `name` is one of `cols`.
pub open spec fn column_listed(cols: Seq<&str>, name: Seq<char>) -> bool {
    exists|i: int| 0 <= i < cols.len() && cols[i]@ == name
}

/// The ordering clause for `order`: `<column> <direction>`.
pub open spec fn order_clause(order: Seq<char>) -> Seq<char> {
    order_parts(order).0 + seq![' '] + order_parts(order).1
}

/// Turns a list order into an ordering clause, accepting only the columns
/// `cols`; anything else is `InvalidOrder`.
pub fn get_order_by_sql(order: &str, cols: Vec<&str>) -> (r: Result<String, Error>)
    ensures
        match r {
            Ok(s) => column_listed(cols@, order_parts(order@).0) && s@ == order_clause(order@),
            Err(e) => e == Error::InvalidOrder && !column_listed(cols@, order_parts(order@).0),
        },
{
    let n = order.unicode_len();
    let desc = n > 0 && order.get_char(0) == '-';
    let name = if desc {
        order.substring_char(1, n)
    } else {
        order
    };
    assert(name@ == order_parts(order@).0);
    let mut i: usize = 0;
    while i < cols.len()
        invariant
            i <= cols.len(),
            name@ == order_parts(order@).0,
            desc == (order@.len() > 0 && order@[0] == '-'),
            forall|j: int| 0 <= j < i ==> cols@[j]@ != name@,
        decreases cols.len() - i,
    {
        let c = cols[i];
        if str_eq(c, name) {
            proof {
                reveal_strlit(" ");
                reveal_strlit("desc");
                reveal_strlit("asc");
            }
            let mut s = String::from_str(c);
            s.append(" ");
            assert(s@ == name@ + seq![' ']);
            if desc {
                s.append("desc");
                assert(s@ == name@ + seq![' '] + seq!['d', 'e', 's', 'c']);
            } else {
                s.append("asc");
                assert(s@ == name@ + seq![' '] + seq!['a', 's', 'c']);
            }
            assert(s@ == order_clause(order@));
            return Ok(s);
        }
        i = i + 1;
    }
    Err(Error::InvalidOrder)
}

/// Validates the ordering and paging of a list query over the columns `cols`.
pub fn apply_list_filters(p: &ListParams, cols: Vec<&str>) -> (r: Result<ListClause, Error>)
    ensures
        match p.order {
            None => match r {
                Ok(c) => c.order_by.is_none() && c.offset == p.offset && c.limit == p.limit,
                Err(_) => false,
            },
            Some(o) => match r {
                Ok(c) => {
                    &&& column_listed(cols@, order_parts(o@).0)
                    &&& c.order_by.is_some()
                    &&& c.order_by.unwrap()@ == order_clause(o@)
                    &&& c.offset == p.offset
                    &&& c.limit == p.limit
                },
                Err(e) => e == Error::InvalidOrder && !column_listed(cols@, order_parts(o@).0),
            },
        },
{
    let order_by = match &p.order {
        Some(o) => match get_order_by_sql(o.as_str(), cols) {
            Ok(s) => Some(s),
            Err(e) => return Err(e),
        },
        None => None,
    };
    Ok(ListClause { order_by, offset: p.offset, limit: p.limit })
}

/// A partial update of a game's descriptive fields.
pub struct UpdateData {
    pub name: Option<String>,
    pub images: Option<Vec<String>>,
    pub users: Option<Vec<(String, i64)>>,
}

/// Some entry of `users` gives user `sub` a level below owner.
pub open spec fn lowers_owner(users: Seq<(String, i64)>, sub: Seq<char>) -> bool {
    exists|i: int| 0 <= i < users.len() && users[i].0@ == sub && users[i].1 < OWNER_PERMISSION
}

impl UpdateData {
    /// No field is to change.
    pub fn is_empty(&self) -> (r: bool)
        ensures
            r == (self.name.is_none() && self.images.is_none() && self.users.is_none()),
    {
        self.name.is_none() && self.images.is_none() && self.users.is_none()
    }

    /// The update would take owner permission away from user `sub`, which an
    /// owner may not do to themselves.
    pub fn lowers_owner(&self, sub: &String) -> (r: bool)
        ensures
            r == (self.users.is_some() && lowers_owner(self.users.unwrap()@, sub@)),
    {
        match &self.users {
            None => false,
            Some(us) => {
                let mut i: usize = 0;
                while i < us.len()
                    invariant
                        i <= us.len(),
                        self.users == Some(*us),
                        forall|j: int| 0 <= j < i ==> !(us@[j].0@ == sub@ && us@[j].1 < OWNER_PERMISSION),
                    decreases us.len() - i,
                {
                    if us[i].0 == *sub && us[i].1 < OWNER_PERMISSION {
                        assert(us@[i as int].0@ == sub@);
                        return true;
                    }
                    i = i + 1;
                }
                assert(!lowers_owner(us@, sub@));
                false
            },
        }
    }
}

/// A full replacement of a game's descriptive fields.
pub struct ReplaceParams {
    pub name: String,
    pub images: Option<Vec<String>>,
    pub users: Vec<(String, i64)>,
}

} // verus!
