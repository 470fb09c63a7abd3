//! Hoist placement: the helper declarations recorded at one lexical level are
//! spliced in right after the last function declaration of that level.

use vstd::prelude::*;
use crate::ast::{
    lemma_view_stmts, lemma_view_stmts_concat, lemma_view_stmts_subrange, view_item, view_items,
    view_stmt, view_stmts, ModuleItem, SpecModuleItem, SpecStmt, Stmt,
};

verus! {

/// One past the last function declaration of `s`, or 0 if there is none.
pub open spec fn insert_pos(s: Seq<SpecStmt>) -> int
    decreases s.len(),
{
    if s.len() == 0 {
        0
    } else if s.last() is FnDecl {
        s.len() as int
    } else {
        insert_pos(s.drop_last())
    }
}

/// `s` with `helpers` spliced in, in order, at `insert_pos(s)`.
pub open spec fn hoist(s: Seq<SpecStmt>, helpers: Seq<SpecStmt>) -> Seq<SpecStmt> {
    let k = insert_pos(s);
    s.subrange(0, k) + helpers + s.subrange(k, s.len() as int)
}

/// Whether a module item declares a function, exported or not.
pub open spec fn is_fn_item(i: SpecModuleItem) -> bool {
    match i {
        SpecModuleItem::Stmt(s) => s is FnDecl,
        SpecModuleItem::Export(s) => s is FnDecl,
        SpecModuleItem::Opaque(_) => false,
    }
}

/// One past the last function declaration among module items, or 0.
pub open spec fn item_insert_pos(s: Seq<SpecModuleItem>) -> int
    decreases s.len(),
{
    if s.len() == 0 {
        0
    } else if is_fn_item(s.last()) {
        s.len() as int
    } else {
        item_insert_pos(s.drop_last())
    }
}

pub open spec fn as_items(helpers: Seq<SpecStmt>) -> Seq<SpecModuleItem> {
    helpers.map_values(|h: SpecStmt| SpecModuleItem::Stmt(h))
}

/// The module items `s` with `helpers` spliced in at `item_insert_pos(s)`.
pub open spec fn hoist_items(s: Seq<SpecModuleItem>, helpers: Seq<SpecStmt>) -> Seq<SpecModuleItem> {
    let k = item_insert_pos(s);
    s.subrange(0, k) + as_items(helpers) + s.subrange(k, s.len() as int)
}

pub proof fn lemma_insert_pos_bounds(s: Seq<SpecStmt>)
    ensures
        0 <= insert_pos(s) <= s.len(),
    decreases s.len(),
{
    if s.len() > 0 {
        lemma_insert_pos_bounds(s.drop_last());
    }
}

proof fn lemma_item_insert_pos_bounds(s: Seq<SpecModuleItem>)
    ensures
        0 <= item_insert_pos(s) <= s.len(),
    decreases s.len(),
{
    if s.len() > 0 {
        lemma_item_insert_pos_bounds(s.drop_last());
    }
}

/// Inserts `hoisted` after the last function declaration of `stmts`.
pub fn insert_hoisted_stmts(stmts: &mut Vec<Stmt>, hoisted: Vec<Stmt>)
    ensures
        view_stmts(final(stmts)@) == hoist(view_stmts(old(stmts)@), view_stmts(hoisted@)),
{
    let ghost s0 = stmts@;
    let ghost ms = view_stmts(s0);
    let ghost h0 = hoisted@;
    proof { lemma_view_stmts(s0); }
    let n = stmts.len();
    let mut pos: usize = 0;
    let mut i: usize = 0;
    while i < n
        invariant
            n == stmts.len(),
            stmts@ == s0,
            ms == view_stmts(s0),
            ms.len() == s0.len(),
            forall|j: int| 0 <= j < s0.len() ==> #[trigger] ms[j] == view_stmt(s0[j]),
            0 <= i <= n,
            pos as int == insert_pos(ms.subrange(0, i as int)),
            pos <= i,
        decreases n - i,
    {
        assert(ms.subrange(0, i + 1).drop_last() =~= ms.subrange(0, i as int));
        match &stmts[i] {
            Stmt::FnDecl(_) => {
                pos = i + 1;
            },
            _ => {},
        }
        i = i + 1;
    }
    assert(ms.subrange(0, n as int) =~= ms);
    let hlen = hoisted.len();
    let mut rest = hoisted;
    let mut j: usize = 0;
    while rest.len() > 0
        invariant
            pos <= n,
            hlen == h0.len(),
            stmts@.len() == n + j,
            n == s0.len(),
            j + rest.len() == h0.len(),
            rest@ == h0.subrange(j as int, h0.len() as int),
            stmts@ == s0.subrange(0, pos as int) + h0.subrange(0, j as int) + s0.subrange(
                pos as int,
                n as int,
            ),
        decreases rest.len(),
    {
        let x = rest.remove(0);
        assert(x == h0[j as int]);
        let cur = stmts.len();
        assert(pos + j <= cur);
        stmts.insert(pos + j, x);
        assert(stmts@ =~= s0.subrange(0, pos as int) + h0.subrange(0, j + 1) + s0.subrange(
            pos as int,
            n as int,
        ));
        j = j + 1;
    }
    proof {
        assert(h0.subrange(0, j as int) =~= h0);
        lemma_view_stmts_concat(s0.subrange(0, pos as int), h0);
        lemma_view_stmts_concat(s0.subrange(0, pos as int) + h0, s0.subrange(pos as int, n as int));
        lemma_view_stmts_subrange(s0, 0, pos as int);
        lemma_view_stmts_subrange(s0, pos as int, n as int);
    }
}

/// Inserts `hoisted` after the last function declaration among `items`.
pub fn insert_hoisted_module_items(items: &mut Vec<ModuleItem>, hoisted: Vec<Stmt>)
    ensures
        view_items(final(items)@) == hoist_items(view_items(old(items)@), view_stmts(hoisted@)),
{
    let ghost s0 = items@;
    let ghost ms = view_items(s0);
    let ghost h0 = hoisted@;
    proof { lemma_view_stmts(h0); }
    let n = items.len();
    let mut pos: usize = 0;
    let mut i: usize = 0;
    while i < n
        invariant
            n == items.len(),
            items@ == s0,
            ms == view_items(s0),
            ms.len() == s0.len(),
            0 <= i <= n,
            pos as int == item_insert_pos(ms.subrange(0, i as int)),
            pos <= i,
        decreases n - i,
    {
        assert(ms.subrange(0, i + 1).drop_last() =~= ms.subrange(0, i as int));
        assert(ms[i as int] == view_item(s0[i as int]));
        let is_fn = match &items[i] {
            ModuleItem::Stmt(Stmt::FnDecl(_)) => true,
            ModuleItem::Export(Stmt::FnDecl(_)) => true,
            _ => false,
        };
        if is_fn {
            pos = i + 1;
        }
        i = i + 1;
    }
    assert(ms.subrange(0, n as int) =~= ms);
    let hlen = hoisted.len();
    let mut rest = hoisted;
    let mut j: usize = 0;
    let ghost hi = h0.map_values(|h: Stmt| ModuleItem::Stmt(h));
    while rest.len() > 0
        invariant
            pos <= n,
            hlen == h0.len(),
            items@.len() == n + j,
            n == s0.len(),
            hi == h0.map_values(|h: Stmt| ModuleItem::Stmt(h)),
            j + rest.len() == h0.len(),
            rest@ == h0.subrange(j as int, h0.len() as int),
            items@ == s0.subrange(0, pos as int) + hi.subrange(0, j as int) + s0.subrange(
                pos as int,
                n as int,
            ),
        decreases rest.len(),
    {
        let x = rest.remove(0);
        assert(x == h0[j as int]);
        let cur = items.len();
        assert(pos + j <= cur);
        items.insert(pos + j, ModuleItem::Stmt(x));
        assert(items@ =~= s0.subrange(0, pos as int) + hi.subrange(0, j + 1) + s0.subrange(
            pos as int,
            n as int,
        ));
        j = j + 1;
    }
    assert(hi.subrange(0, j as int) =~= hi);
    assert(view_items(items@) =~= hoist_items(view_items(s0), view_stmts(h0)));
}

/// Splicing in no helpers leaves a list as it is.
pub proof fn lemma_hoist_nothing(s: Seq<SpecStmt>)
    ensures
        hoist(s, Seq::empty()) == s,
{
    lemma_insert_pos_bounds(s);
    assert(hoist(s, Seq::empty()) =~= s);
}

/// Splicing in no helpers leaves module items as they are.
pub proof fn lemma_hoist_items_nothing(s: Seq<SpecModuleItem>)
    ensures
        hoist_items(s, Seq::empty()) == s,
{
    lemma_item_insert_pos_bounds(s);
    assert(as_items(Seq::empty()) =~= Seq::empty());
    assert(hoist_items(s, Seq::empty()) =~= s);
}

} // verus!
