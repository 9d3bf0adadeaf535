//! The contracts of a project and the order in which they are compiled: a
//! contract only after the contracts that it depends on.

use vstd::prelude::*;
use vstd::string::*;
use std::collections::HashMap;
use crate::bytes::append_bytes;
use crate::codec::RISCV_MARKER;
use crate::config::{entries_map, lookup};
use crate::gas::same_text;

verus! {

broadcast use vstd::std_specs::hash::group_hash_axioms;

/// Why a directory holds no contract that can be compiled.
#[derive(Clone, Debug)]
pub enum ContractError {
    /// A file could not be read; the text says why.
    IoError(String),
    /// The manifest is no TOML, or names no package.
    NotToml,
    /// The manifest lacks a dependency that every contract needs.
    MissingDependencies,
    /// The manifest lacks one of the two binaries of a contract.
    MissingBinaries,
    /// The manifest lacks one of the features of a contract.
    MissingFeatures,
    /// The path of a dependency leads nowhere.
    WrongPath,
    /// Contracts depend on each other in a circle.
    CyclicDependency,
}

/// The name of a contract.
#[derive(Clone, Debug, PartialEq)]
pub struct ContractName {
    /// The name of the package.
    pub package: String,
    /// The name of the contract's type.
    pub ident: String,
}

/// A contract.
#[derive(Clone, Debug, PartialEq)]
pub struct Contract {
    /// The directory of the package.
    pub path: String,
    /// The name of the contract.
    pub name: ContractName,
}

/// A contract together with the contracts that it depends on.
#[derive(Clone, Debug)]
pub struct ContractWithDeps {
    /// The directory of the package.
    pub path: String,
    /// The name of the contract.
    pub name: ContractName,
    /// The contracts that it depends on.
    pub deps: Vec<Contract>,
}

/// A contract as the texts that it holds: the path, the package and the
/// type.
pub struct ContractView {
    pub path: Seq<char>,
    pub package: Seq<char>,
    pub ident: Seq<char>,
}

/// A contract with its dependencies as the texts that it holds.
pub struct ContractWithDepsView {
    pub contract: ContractView,
    pub deps: Seq<ContractView>,
}

impl View for Contract {
    type V = ContractView;

    open spec fn view(&self) -> ContractView {
        ContractView { path: self.path@, package: self.name.package@, ident: self.name.ident@ }
    }
}

/// The contracts of a list as the texts that they hold.
pub open spec fn contract_views(list: Seq<Contract>) -> Seq<ContractView> {
    Seq::new(list.len(), |i: int| list[i]@)
}

impl View for ContractWithDeps {
    type V = ContractWithDepsView;

    open spec fn view(&self) -> ContractWithDepsView {
        ContractWithDepsView {
            contract: ContractView {
                path: self.path@,
                package: self.name.package@,
                ident: self.name.ident@,
            },
            deps: contract_views(self.deps@),
        }
    }
}

/// The contracts with their dependencies of a list as the texts that they
/// hold.
pub open spec fn deps_views(list: Seq<ContractWithDeps>) -> Seq<ContractWithDepsView> {
    Seq::new(list.len(), |i: int| list[i]@)
}

/// Whether every one of `deps` is among `handled`.
pub open spec fn all_handled_spec(deps: Seq<ContractView>, handled: Seq<ContractView>) -> bool {
    forall|i: int| 0 <= i < deps.len() ==> handled.contains(#[trigger] deps[i])
}

/// One pass over the contracts that wait: each one whose dependencies are
/// all in the queue by then joins the queue, the others wait on. The result
/// is what waits on and the queue.
pub open spec fn pass(pending: Seq<ContractWithDepsView>, queue: Seq<ContractView>) -> (
    Seq<ContractWithDepsView>,
    Seq<ContractView>,
)
    decreases pending.len(),
{
    if pending.len() == 0 {
        (Seq::empty(), queue)
    } else {
        let (waiting, queued) = pass(pending.drop_last(), queue);
        if all_handled_spec(pending.last().deps, queued) {
            (waiting, queued.push(pending.last().contract))
        } else {
            (waiting.push(pending.last()), queued)
        }
    }
}

/// The order of compilation: passes are made until no contract waits. A pass
/// in which no contract joins the queue shows a circle, and there is no
/// order.
pub open spec fn compile_order(
    pending: Seq<ContractWithDepsView>,
    queue: Seq<ContractView>,
) -> Option<Seq<ContractView>>
    decreases pending.len(),
{
    if pending.len() == 0 {
        Some(queue)
    } else {
        let (waiting, queued) = pass(pending, queue);
        if waiting.len() >= pending.len() {
            None
        } else {
            compile_order(waiting, queued)
        }
    }
}

/// Whether two contracts hold the same texts.
pub fn same_contract(a: &Contract, b: &Contract) -> (r: bool)
    ensures
        r == (a@ == b@),
{
    let r = same_text(a.path.as_str(), b.path.as_str()) && same_text(
        a.name.package.as_str(),
        b.name.package.as_str(),
    ) && same_text(a.name.ident.as_str(), b.name.ident.as_str());
    proof {
        if r {
            assert(a@.path == b@.path && a@.package == b@.package && a@.ident == b@.ident);
        }
    }
    r
}

/// Whether `c` is among `list`.
pub fn contains_contract(list: &[Contract], c: &Contract) -> (r: bool)
    ensures
        r == contract_views(list@).contains(c@),
{
    let mut j: usize = 0;
    while j < list.len()
        invariant
            j <= list@.len(),
            forall|k: int| 0 <= k < j ==> list@[k]@ != c@,
        decreases list@.len() - j,
    {
        if same_contract(&list[j], c) {
            assert(contract_views(list@)[j as int] == c@);
            return true;
        }
        j += 1;
    }
    assert forall|k: int| 0 <= k < contract_views(list@).len() implies contract_views(list@)[k]
        != c@ by {
        assert(contract_views(list@)[k] == list@[k]@);
    }
    false
}

/// Whether every one of `deps` is among `handled`.
pub fn all_handled(deps: &[Contract], handled: &[Contract]) -> (r: bool)
    ensures
        r == all_handled_spec(contract_views(deps@), contract_views(handled@)),
{
    let mut i: usize = 0;
    while i < deps.len()
        invariant
            i <= deps@.len(),
            forall|k: int|
                0 <= k < i ==> contract_views(handled@).contains(
                    #[trigger] contract_views(deps@)[k],
                ),
        decreases deps@.len() - i,
    {
        if !contains_contract(handled, &deps[i]) {
            assert(contract_views(deps@)[i as int] == deps@[i as int]@);
            return false;
        }
        assert(contract_views(deps@)[i as int] == deps@[i as int]@);
        i += 1;
    }
    true
}

/// The contract without its dependencies.
pub fn into_contract(c: ContractWithDeps) -> (r: Contract)
    ensures
        r@ == c@.contract,
{
    Contract { path: c.path, name: c.name }
}

/// The contracts of a list without their dependencies, in the same order.
pub fn into_contracts(list: Vec<ContractWithDeps>) -> (r: Vec<Contract>)
    ensures
        contract_views(r@) == Seq::new(list@.len(), |i: int| list@[i]@.contract),
{
    let mut list = list;
    let ghost all = list@;
    let mut r: Vec<Contract> = Vec::new();
    while list.len() > 0
        invariant
            r@.len() + list@.len() == all.len(),
            forall|k: int| 0 <= k < r@.len() ==> (#[trigger] r@[k])@ == all[k]@.contract,
            forall|k: int| 0 <= k < list@.len() ==> list@[k] == all[r@.len() + k],
        decreases list@.len(),
    {
        let c = list.remove(0);
        r.push(into_contract(c));
    }
    assert(contract_views(r@) =~= Seq::new(all.len(), |i: int| all[i]@.contract));
    r
}

/// Makes one pass over the contracts that wait.
fn make_pass(pending: Vec<ContractWithDeps>, queue: &mut Vec<Contract>) -> (waiting: Vec<
    ContractWithDeps,
>)
    ensures
        pass(deps_views(pending@), contract_views(old(queue)@)) == (
            deps_views(waiting@),
            contract_views(final(queue)@),
        ),
{
    let mut pending = pending;
    let ghost all = pending@;
    let ghost queue0 = contract_views(queue@);
    let ghost done: int = 0;
    let mut waiting: Vec<ContractWithDeps> = Vec::new();
    proof {
        assert(deps_views(all).subrange(0, 0) =~= Seq::<ContractWithDepsView>::empty());
        assert(deps_views(waiting@) =~= Seq::<ContractWithDepsView>::empty());
    }
    while pending.len() > 0
        invariant
            0 <= done <= all.len(),
            done + pending@.len() == all.len(),
            forall|k: int| 0 <= k < pending@.len() ==> pending@[k] == all[done + k],
            pass(deps_views(all).subrange(0, done), queue0) == (
                deps_views(waiting@),
                contract_views(queue@),
            ),
        decreases pending@.len(),
    {
        let p = pending.remove(0);
        proof {
            let next = deps_views(all).subrange(0, done + 1);
            assert(next.drop_last() =~= deps_views(all).subrange(0, done));
            assert(next.last() == p@);
        }
        let ghost waiting0 = deps_views(waiting@);
        let ghost queued0 = contract_views(queue@);
        if all_handled(p.deps.as_slice(), queue.as_slice()) {
            let c = into_contract(p);
            queue.push(c);
            assert(contract_views(queue@) =~= queued0.push(c@));
        } else {
            waiting.push(p);
            assert(deps_views(waiting@) =~= waiting0.push(p@));
        }
        proof {
            done = done + 1;
        }
    }
    assert(deps_views(all).subrange(0, all.len() as int) =~= deps_views(all));
    waiting
}

/// The contracts in the order in which they are to be compiled.
///
/// The contracts without dependencies, under `true`, come first, in their
/// order. Those with dependencies, under `false`, follow in passes: in each
/// pass the contracts whose dependencies are all in the queue join it. A pass
/// that adds none ends the sorting with `CyclicDependency`.
pub fn sort_r55_contracts(map: HashMap<bool, Vec<ContractWithDeps>>) -> (r: Result<
    Vec<Contract>,
    ContractError,
>)
    ensures
        match r {
            Ok(queue) => compile_order(pending_of(map@), first_queue(map@)) == Some(
                contract_views(queue@),
            ),
            Err(ContractError::CyclicDependency) => compile_order(
                pending_of(map@),
                first_queue(map@),
            ).is_none(),
            Err(_) => false,
        },
{
    let ghost map0 = map@;
    let mut rest = map;
    let mut queue: Vec<Contract> = match rest.remove(&true) {
        Some(contracts) => into_contracts(contracts),
        None => Vec::new(),
    };
    let mut pending: Vec<ContractWithDeps> = match rest.remove(&false) {
        Some(contracts) => contracts,
        None => Vec::new(),
    };
    proof {
        assert(contract_views(queue@) =~= first_queue(map0));
        assert(deps_views(pending@) =~= pending_of(map0));
    }
    while pending.len() > 0
        invariant
            map0 == map@,
            compile_order(pending_of(map0), first_queue(map0)) == compile_order(
                deps_views(pending@),
                contract_views(queue@),
            ),
        decreases pending@.len(),
    {
        let prev_pending = pending.len();
        let ghost waited = deps_views(pending@);
        let ghost queued = contract_views(queue@);
        proof {
            lemma_pass_waits(waited, queued);
        }
        pending = make_pass(pending, &mut queue);
        assert(pass(waited, queued) == (deps_views(pending@), contract_views(queue@)));
        if prev_pending == pending.len() {
            assert(compile_order(waited, queued).is_none());
            return Err(ContractError::CyclicDependency);
        }
        assert(compile_order(waited, queued) == compile_order(
            deps_views(pending@),
            contract_views(queue@),
        ));
    }
    Ok(queue)
}

/// The contracts with dependencies of a map of contracts.
pub open spec fn pending_of(map: Map<bool, Vec<ContractWithDeps>>) -> Seq<ContractWithDepsView> {
    if map.dom().contains(false) {
        deps_views(map[false]@)
    } else {
        Seq::empty()
    }
}

/// The contracts without dependencies of a map of contracts.
pub open spec fn first_queue(map: Map<bool, Vec<ContractWithDeps>>) -> Seq<ContractView> {
    if map.dom().contains(true) {
        Seq::new(map[true]@.len(), |i: int| map[true]@[i]@.contract)
    } else {
        Seq::empty()
    }
}

/// A pass loses no contract: those that wait on and those that joined the
/// queue are as many as waited before.
pub proof fn lemma_pass_waits(pending: Seq<ContractWithDepsView>, queue: Seq<ContractView>)
    ensures
        pass(pending, queue).0.len() + pass(pending, queue).1.len() == pending.len() + queue.len(),
        pass(pending, queue).0.len() <= pending.len(),
    decreases pending.len(),
{
    if pending.len() > 0 {
        lemma_pass_waits(pending.drop_last(), queue);
    }
}

/// Whether the contract at `k` of a queue joined it for one of the contracts
/// that waited, all of whose dependencies stand before it in the queue.
pub open spec fn joined_after_deps(
    pending: Seq<ContractWithDepsView>,
    queue: Seq<ContractView>,
    k: int,
) -> bool {
    exists|j: int|
        0 <= j < pending.len() && (#[trigger] pending[j]).contract == queue[k] && all_handled_spec(
            pending[j].deps,
            queue.subrange(0, k),
        )
}

/// Whether the queue `longer` begins with the queue `shorter`, and each
/// contract after that joined it for one of the contracts that waited, all of
/// whose dependencies stand before it.
pub open spec fn extends_in_order(
    pending: Seq<ContractWithDepsView>,
    shorter: Seq<ContractView>,
    longer: Seq<ContractView>,
) -> bool {
    &&& shorter.len() <= longer.len()
    &&& longer.subrange(0, shorter.len() as int) == shorter
    &&& forall|k: int| shorter.len() <= k < longer.len() ==> #[trigger] joined_after_deps(pending, longer, k)
}

/// Whether each of `some` is one of `all`.
pub open spec fn each_among(some: Seq<ContractWithDepsView>, all: Seq<ContractWithDepsView>) -> bool {
    forall|i: int| 0 <= i < some.len() ==> all.contains(#[trigger] some[i])
}

/// In a pass the queue only grows, by contracts whose dependencies stand
/// before them, and what waits on waited before.
pub proof fn lemma_pass_in_order(pending: Seq<ContractWithDepsView>, queue: Seq<ContractView>)
    ensures
        extends_in_order(pending, queue, pass(pending, queue).1),
        each_among(pass(pending, queue).0, pending),
    decreases pending.len(),
{
    let (waiting, queued) = pass(pending, queue);
    if pending.len() == 0 {
        assert(queued.subrange(0, queue.len() as int) =~= queue);
    } else {
        let before = pending.drop_last();
        let last = pending.last();
        let (waiting0, queued0) = pass(before, queue);
        lemma_pass_in_order(before, queue);
        assert(pending[pending.len() - 1] == last);
        assert forall|i: int| 0 <= i < waiting.len() implies pending.contains(
            #[trigger] waiting[i],
        ) by {
            if i < waiting0.len() {
                assert(before.contains(waiting0[i]));
                let j = choose|j: int| 0 <= j < before.len() && before[j] == waiting0[i];
                assert(pending[j] == waiting0[i]);
            }
        }
        assert(queued.subrange(0, queue.len() as int) =~= queued0.subrange(0, queue.len() as int));
        assert forall|k: int| queue.len() <= k < queued.len() implies #[trigger] joined_after_deps(
            pending,
            queued,
            k,
        ) by {
            if k < queued0.len() {
                assert(joined_after_deps(before, queued0, k));
                let j = choose|j: int|
                    0 <= j < before.len() && (#[trigger] before[j]).contract == queued0[k]
                        && all_handled_spec(before[j].deps, queued0.subrange(0, k));
                assert(pending[j] == before[j]);
                assert(queued.subrange(0, k) =~= queued0.subrange(0, k));
            } else {
                assert(queued.subrange(0, k) =~= queued0);
            }
        }
    }
}

/// In the order of compilation every contract stands after the contracts
/// that it depends on: the order begins with the queue that the sorting
/// began with, and every contract after that is one of those that waited, with
/// all its dependencies before it.
pub proof fn lemma_compile_order_respects_deps(
    pending: Seq<ContractWithDepsView>,
    queue: Seq<ContractView>,
)
    requires
        compile_order(pending, queue).is_some(),
    ensures
        extends_in_order(pending, queue, compile_order(pending, queue)->0),
        compile_order(pending, queue)->0.len() == queue.len() + pending.len(),
    decreases pending.len(),
{
    let order = compile_order(pending, queue)->0;
    if pending.len() == 0 {
        assert(order.subrange(0, queue.len() as int) =~= queue);
    } else {
        let (waiting, queued) = pass(pending, queue);
        lemma_pass_waits(pending, queue);
        lemma_pass_in_order(pending, queue);
        lemma_compile_order_respects_deps(waiting, queued);
        assert(order.subrange(0, queue.len() as int) =~= queued.subrange(0, queue.len() as int));
        assert forall|k: int| queue.len() <= k < order.len() implies #[trigger] joined_after_deps(
            pending,
            order,
            k,
        ) by {
            if k < queued.len() {
                assert(joined_after_deps(pending, queued, k));
                assert(order.subrange(0, k) =~= queued.subrange(0, k));
                assert(order[k] == order.subrange(0, queued.len() as int)[k]);
            } else {
                assert(joined_after_deps(waiting, order, k));
                let j = choose|j: int|
                    0 <= j < waiting.len() && (#[trigger] waiting[j]).contract == order[k]
                        && all_handled_spec(waiting[j].deps, order.subrange(0, k));
                assert(pending.contains(waiting[j]));
                let i = choose|i: int| 0 <= i < pending.len() && pending[i] == waiting[j];
                assert(pending[i].contract == order[k]);
            }
        }
    }
}

/// Whether a dependency of a contract that waits is met: it stands in the
/// queue, or it is one of the contracts that wait, on a lower level.
pub open spec fn dep_is_met(
    pending: Seq<ContractWithDepsView>,
    queue: Seq<ContractView>,
    level: spec_fn(ContractWithDepsView) -> nat,
    i: int,
    k: int,
) -> bool {
    queue.contains(pending[i].deps[k]) || exists|j: int|
        0 <= j < pending.len() && (#[trigger] pending[j]).contract == pending[i].deps[k] && level(
            pending[j],
        ) < level(pending[i])
}

/// Whether the contracts that wait depend on nothing but the queue and each
/// other, and in no circle: every dependency stands in the queue or is a
/// contract that waits on a lower level.
pub open spec fn is_ranked(
    pending: Seq<ContractWithDepsView>,
    queue: Seq<ContractView>,
    level: spec_fn(ContractWithDepsView) -> nat,
) -> bool {
    forall|i: int, k: int|
        0 <= i < pending.len() && 0 <= k < pending[i].deps.len() ==> #[trigger] dep_is_met(
            pending,
            queue,
            level,
            i,
            k,
        )
}

/// How often a contract stands in a queue.
pub open spec fn count_in(queue: Seq<ContractView>, c: ContractView) -> nat
    decreases queue.len(),
{
    if queue.len() == 0 {
        0
    } else {
        count_in(queue.drop_last(), c) + if queue.last() == c {
            1nat
        } else {
            0nat
        }
    }
}

/// How often a contract stands among the contracts that wait.
pub open spec fn count_waiting(pending: Seq<ContractWithDepsView>, c: ContractView) -> nat
    decreases pending.len(),
{
    if pending.len() == 0 {
        0
    } else {
        count_waiting(pending.drop_last(), c) + if pending.last().contract == c {
            1nat
        } else {
            0nat
        }
    }
}

/// What stands in a queue stands in every queue that begins with it.
pub proof fn lemma_prefix_contains(shorter: Seq<ContractView>, longer: Seq<ContractView>, c: ContractView)
    requires
        shorter.len() <= longer.len(),
        longer.subrange(0, shorter.len() as int) == shorter,
        shorter.contains(c),
    ensures
        longer.contains(c),
{
    let i = choose|i: int| 0 <= i < shorter.len() && shorter[i] == c;
    assert(longer.subrange(0, shorter.len() as int)[i] == longer[i]);
}

/// A contract whose dependencies all stand in the queue joins the queue in
/// the next pass, so that fewer contracts wait after it.
pub proof fn lemma_pass_joins(pending: Seq<ContractWithDepsView>, queue: Seq<ContractView>, i: int)
    requires
        0 <= i < pending.len(),
        all_handled_spec(pending[i].deps, queue),
    ensures
        pass(pending, queue).0.len() < pending.len(),
    decreases pending.len(),
{
    let before = pending.drop_last();
    let (waiting0, queued0) = pass(before, queue);
    lemma_pass_waits(before, queue);
    if i == pending.len() - 1 {
        lemma_pass_in_order(before, queue);
        assert forall|k: int| 0 <= k < pending[i].deps.len() implies queued0.contains(
            #[trigger] pending[i].deps[k],
        ) by {
            lemma_prefix_contains(queue, queued0, pending[i].deps[k]);
        }
    } else {
        assert(before[i] == pending[i]);
        lemma_pass_joins(before, queue, i);
    }
}

/// After a pass every contract that waited waits on or stands in the queue.
pub proof fn lemma_pass_keeps_all(pending: Seq<ContractWithDepsView>, queue: Seq<ContractView>, j: int)
    requires
        0 <= j < pending.len(),
    ensures
        pass(pending, queue).0.contains(pending[j]) || pass(pending, queue).1.contains(
            pending[j].contract,
        ),
    decreases pending.len(),
{
    let before = pending.drop_last();
    let (waiting0, queued0) = pass(before, queue);
    let (waiting, queued) = pass(pending, queue);
    if j == pending.len() - 1 {
        if all_handled_spec(pending.last().deps, queued0) {
            assert(queued[queued.len() - 1] == pending[j].contract);
        } else {
            assert(waiting[waiting.len() - 1] == pending[j]);
        }
    } else {
        assert(before[j] == pending[j]);
        lemma_pass_keeps_all(before, queue, j);
        if waiting0.contains(pending[j]) {
            let at = choose|at: int| 0 <= at < waiting0.len() && waiting0[at] == pending[j];
            assert(waiting[at] == pending[j]);
        } else {
            let at = choose|at: int| 0 <= at < queued0.len() && queued0[at] == pending[j].contract;
            assert(queued[at] == pending[j].contract);
        }
    }
}

/// Among contracts that wait there is one on the lowest level.
pub proof fn lemma_lowest_level(
    pending: Seq<ContractWithDepsView>,
    level: spec_fn(ContractWithDepsView) -> nat,
) -> (i: int)
    requires
        pending.len() > 0,
    ensures
        0 <= i < pending.len(),
        forall|j: int| 0 <= j < pending.len() ==> level(pending[i]) <= level(#[trigger] pending[j]),
    decreases pending.len(),
{
    if pending.len() == 1 {
        0
    } else {
        let before = pending.drop_last();
        let at = lemma_lowest_level(before, level);
        assert(before[at] == pending[at]);
        assert forall|j: int| 0 <= j < before.len() implies level(pending[at]) <= level(
            #[trigger] pending[j],
        ) by {
            assert(before[j] == pending[j]);
        }
        if level(pending.last()) < level(pending[at]) {
            pending.len() - 1
        } else {
            at
        }
    }
}

/// Contracts that depend on nothing but the queue and each other, and in no
/// circle, have an order of compilation.
pub proof fn lemma_ranked_contracts_have_an_order(
    pending: Seq<ContractWithDepsView>,
    queue: Seq<ContractView>,
    level: spec_fn(ContractWithDepsView) -> nat,
)
    requires
        is_ranked(pending, queue, level),
    ensures
        compile_order(pending, queue).is_some(),
    decreases pending.len(),
{
    if pending.len() > 0 {
        let (waiting, queued) = pass(pending, queue);
        let lowest = lemma_lowest_level(pending, level);
        assert forall|k: int| 0 <= k < pending[lowest].deps.len() implies queue.contains(
            #[trigger] pending[lowest].deps[k],
        ) by {
            assert(dep_is_met(pending, queue, level, lowest, k));
        }
        lemma_pass_joins(pending, queue, lowest);
        lemma_pass_in_order(pending, queue);
        assert forall|i: int, k: int|
            0 <= i < waiting.len() && 0 <= k < waiting[i].deps.len() implies #[trigger] dep_is_met(
            waiting,
            queued,
            level,
            i,
            k,
        ) by {
            assert(pending.contains(waiting[i]));
            let i0 = choose|i0: int| 0 <= i0 < pending.len() && pending[i0] == waiting[i];
            assert(dep_is_met(pending, queue, level, i0, k));
            let dep = waiting[i].deps[k];
            if queue.contains(dep) {
                lemma_prefix_contains(queue, queued, dep);
            } else {
                let j = choose|j: int|
                    0 <= j < pending.len() && (#[trigger] pending[j]).contract == dep && level(
                        pending[j],
                    ) < level(pending[i0]);
                lemma_pass_keeps_all(pending, queue, j);
                if waiting.contains(pending[j]) {
                    let at = choose|at: int| 0 <= at < waiting.len() && waiting[at] == pending[j];
                    assert(waiting[at].contract == dep && level(waiting[at]) < level(waiting[i]));
                }
            }
        }
        lemma_ranked_contracts_have_an_order(waiting, queued, level);
    }
}

/// A pass loses and adds no contract: each contract stands in the queue and
/// among those that wait on as often, taken together, as it did before.
pub proof fn lemma_pass_counts(
    pending: Seq<ContractWithDepsView>,
    queue: Seq<ContractView>,
    c: ContractView,
)
    ensures
        count_in(pass(pending, queue).1, c) + count_waiting(pass(pending, queue).0, c) == count_in(
            queue,
            c,
        ) + count_waiting(pending, c),
    decreases pending.len(),
{
    if pending.len() > 0 {
        let before = pending.drop_last();
        let (waiting0, queued0) = pass(before, queue);
        lemma_pass_counts(before, queue, c);
        if all_handled_spec(pending.last().deps, queued0) {
            assert(queued0.push(pending.last().contract).drop_last() =~= queued0);
        } else {
            assert(waiting0.push(pending.last()).drop_last() =~= waiting0);
        }
    }
}

/// The order of compilation holds the contracts of the queue that the
/// sorting began with and the contracts that waited, each as often as it
/// stood there, and no other.
pub proof fn lemma_compile_order_is_a_permutation(
    pending: Seq<ContractWithDepsView>,
    queue: Seq<ContractView>,
    c: ContractView,
)
    requires
        compile_order(pending, queue).is_some(),
    ensures
        count_in(compile_order(pending, queue)->0, c) == count_in(queue, c) + count_waiting(
            pending,
            c,
        ),
    decreases pending.len(),
{
    if pending.len() > 0 {
        let (waiting, queued) = pass(pending, queue);
        lemma_pass_counts(pending, queue, c);
        lemma_compile_order_is_a_permutation(waiting, queued, c);
    }
}

impl Contract {
    /// The directory of the package as a text.
    pub fn path_str(&self) -> (path: &str)
        ensures
            path@ == self.path@,
    {
        self.path.as_str()
    }

    /// The bytecode of the contract as it is deployed: the marker byte and
    /// then the bytecode of its deployment binary.
    pub fn compile_r55(&self, deploy_bytecode: &[u8]) -> (bytecode: Vec<u8>)
        ensures
            bytecode@ == seq![RISCV_MARKER] + deploy_bytecode@,
    {
        let mut bytecode: Vec<u8> = Vec::new();
        bytecode.push(RISCV_MARKER);
        append_bytes(&mut bytecode, deploy_bytecode);
        bytecode
    }
}

/// What the search for a contract reads of one `impl` block of a source
/// file.
#[derive(Clone, Debug, PartialEq)]
pub struct ImplBlock {
    /// The attributes of the block, each as the names along its path.
    pub attributes: Vec<Vec<String>>,
    /// The name of the type that the block is for, if the type is a path: the
    /// last name along the path.
    pub self_type: Option<String>,
}

/// Whether an attribute is `contract`: a path of that one name.
pub open spec fn is_contract_attribute(path: Seq<String>) -> bool {
    path.len() == 1 && path[0]@ == "contract"@
}

/// Whether one of the attributes of a block is `contract`.
pub open spec fn has_contract_attribute_spec(block: ImplBlock) -> bool {
    exists|i: int|
        0 <= i < block.attributes@.len() && is_contract_attribute(
            (#[trigger] block.attributes@[i])@,
        )
}

/// Whether a block implements a contract whose type has a name.
pub open spec fn names_contract(block: ImplBlock) -> bool {
    has_contract_attribute_spec(block) && block.self_type.is_some()
}

/// Whether one of the attributes of a block is `contract`.
pub fn has_contract_attribute(block: &ImplBlock) -> (r: bool)
    ensures
        r == has_contract_attribute_spec(*block),
{
    let mut i: usize = 0;
    while i < block.attributes.len()
        invariant
            i <= block.attributes@.len(),
            forall|j: int|
                0 <= j < i ==> !is_contract_attribute((#[trigger] block.attributes@[j])@),
        decreases block.attributes@.len() - i,
    {
        let path = &block.attributes[i];
        if path.len() == 1 && same_text(path[0].as_str(), "contract") {
            return true;
        }
        i += 1;
    }
    false
}

/// The name of the contract of a source file: the name of the type of the
/// first `impl` block that has the attribute `contract` and is for a type
/// with a name. `None` where no block is such.
pub fn find_contract_ident(blocks: &[ImplBlock]) -> (r: Option<String>)
    ensures
        match r {
            Some(ident) => exists|i: int|
                0 <= i < blocks@.len() && names_contract(#[trigger] blocks@[i])
                    && blocks@[i].self_type->0@ == ident@ && forall|j: int|
                    0 <= j < i ==> !names_contract(#[trigger] blocks@[j]),
            None => forall|j: int| 0 <= j < blocks@.len() ==> !names_contract(#[trigger] blocks@[j]),
        },
{
    let mut i: usize = 0;
    while i < blocks.len()
        invariant
            i <= blocks@.len(),
            forall|j: int| 0 <= j < i ==> !names_contract(#[trigger] blocks@[j]),
        decreases blocks@.len() - i,
    {
        if has_contract_attribute(&blocks[i]) {
            match &blocks[i].self_type {
                Some(ident) => {
                    return Some(ident.clone());
                },
                None => {},
            }
        }
        i += 1;
    }
    None
}

/// The name that a table of names by path has for a path, or `ident` where
/// it has none.
pub open spec fn ident_or(idents: Seq<(String, String)>, path: Seq<char>, ident: Seq<char>) -> Seq<
    char,
> {
    if entries_map(idents).dom().contains(path) {
        entries_map(idents)[path]
    } else {
        ident
    }
}

/// A contract with the name that the table has for its path.
pub open spec fn named(idents: Seq<(String, String)>, c: ContractView) -> ContractView {
    ContractView { path: c.path, package: c.package, ident: ident_or(idents, c.path, c.ident) }
}

/// A contract with its dependencies, each with the name that the table has
/// for its path.
pub open spec fn named_with_deps(
    idents: Seq<(String, String)>,
    c: ContractWithDepsView,
) -> ContractWithDepsView {
    ContractWithDepsView {
        contract: named(idents, c.contract),
        deps: Seq::new(c.deps.len(), |i: int| named(idents, c.deps[i])),
    }
}

/// Gives a contract the name that the table has for its path.
pub fn name_contract(c: Contract, idents: &Vec<(String, String)>) -> (r: Contract)
    ensures
        r@ == named(idents@, c@),
{
    let ident = match lookup(idents, c.path.as_str()) {
        Some(found) => found.clone(),
        None => c.name.ident,
    };
    Contract { path: c.path, name: ContractName { package: c.name.package, ident } }
}

/// Gives a contract and its dependencies the names that the table has for
/// their paths.
pub fn name_contract_with_deps(c: ContractWithDeps, idents: &Vec<(String, String)>) -> (r:
    ContractWithDeps)
    ensures
        r@ == named_with_deps(idents@, c@),
{
    let ghost all = c.deps@;
    let own = name_contract(Contract { path: c.path, name: c.name }, idents);
    let mut rest = c.deps;
    let mut deps: Vec<Contract> = Vec::new();
    while rest.len() > 0
        invariant
            deps@.len() + rest@.len() == all.len(),
            forall|k: int| 0 <= k < deps@.len() ==> (#[trigger] deps@[k])@ == named(idents@, all[k]@),
            forall|k: int| 0 <= k < rest@.len() ==> rest@[k] == all[deps@.len() + k],
        decreases rest@.len(),
    {
        let dep = rest.remove(0);
        deps.push(name_contract(dep, idents));
    }
    assert(contract_views(deps@) =~= Seq::new(
        all.len(),
        |i: int| named(idents@, contract_views(all)[i]),
    ));
    ContractWithDeps { path: own.path, name: own.name, deps }
}

/// Those of the contracts that have dependencies, or those that have none,
/// in their order.
pub open spec fn those(contracts: Seq<ContractWithDeps>, without_deps: bool) -> Seq<
    ContractWithDeps,
>
    decreases contracts.len(),
{
    if contracts.len() == 0 {
        Seq::empty()
    } else if (contracts.last().deps@.len() == 0) == without_deps {
        those(contracts.drop_last(), without_deps).push(contracts.last())
    } else {
        those(contracts.drop_last(), without_deps)
    }
}

/// The contracts in two groups: under `true` those without dependencies,
/// under `false` the others, each group in the order of the list. A group
/// without contracts is left out.
pub fn group_contracts(contracts: Vec<ContractWithDeps>) -> (map: HashMap<
    bool,
    Vec<ContractWithDeps>,
>)
    ensures
        map@.dom().contains(true) == (those(contracts@, true).len() > 0),
        map@.dom().contains(false) == (those(contracts@, false).len() > 0),
        map@.dom().contains(true) ==> map@[true]@ == those(contracts@, true),
        map@.dom().contains(false) ==> map@[false]@ == those(contracts@, false),
{
    let ghost all = contracts@;
    let ghost done: int = 0;
    let mut rest = contracts;
    let mut plain: Vec<ContractWithDeps> = Vec::new();
    let mut waiting: Vec<ContractWithDeps> = Vec::new();
    proof {
        assert(all.subrange(0, 0) =~= Seq::<ContractWithDeps>::empty());
    }
    while rest.len() > 0
        invariant
            0 <= done <= all.len(),
            done + rest@.len() == all.len(),
            forall|k: int| 0 <= k < rest@.len() ==> rest@[k] == all[done + k],
            plain@ == those(all.subrange(0, done), true),
            waiting@ == those(all.subrange(0, done), false),
        decreases rest@.len(),
    {
        let c = rest.remove(0);
        proof {
            let next = all.subrange(0, done + 1);
            assert(next.drop_last() =~= all.subrange(0, done));
            assert(next.last() == c);
            done = done + 1;
        }
        if c.deps.len() == 0 {
            plain.push(c);
        } else {
            waiting.push(c);
        }
    }
    assert(all.subrange(0, all.len() as int) =~= all);
    let mut map: HashMap<bool, Vec<ContractWithDeps>> = HashMap::new();
    if plain.len() > 0 {
        map.insert(true, plain);
    }
    if waiting.len() > 0 {
        map.insert(false, waiting);
    }
    map
}

} // verus!
