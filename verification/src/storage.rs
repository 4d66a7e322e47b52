//! What the three tables hold, and what a write does to them. Every write is
//! insert-if-absent: a row whose key is already there is left as it is.

use vstd::prelude::*;
use crate::normalizer::{CategoryModel, GameCategoryRow, GameModel, NormalizedModel};

verus! {

/// The contents of the three tables: games by id, category names by id, and
/// the set of pairs that join them.
pub struct StoreModel {
    pub games: Map<u32, GameModel>,
    pub categories: Map<u32, Seq<char>>,
    pub game_categories: Set<GameCategoryRow>,
}

/// Three empty tables.
pub open spec fn empty_store() -> StoreModel {
    StoreModel { games: Map::empty(), categories: Map::empty(), game_categories: Set::empty() }
}

/// Whether some category already carries `name`.
pub open spec fn name_taken(s: StoreModel, name: Seq<char>) -> bool {
    exists|id: u32| #[trigger] s.categories.contains_key(id) && s.categories[id] == name
}

/// Whether a write of `c` would be ignored: its id is stored already, or its
/// name belongs to another category.
pub open spec fn blocked(s: StoreModel, c: CategoryModel) -> bool {
    s.categories.contains_key(c.id) || name_taken(s, c.name)
}

/// No two categories share a name.
pub open spec fn names_unique(s: StoreModel) -> bool {
    forall|a: u32, b: u32|
        #![trigger s.categories[a], s.categories[b]]
        s.categories.contains_key(a) && s.categories.contains_key(b) && s.categories[a]
            == s.categories[b] ==> a == b
}

/// The tables after a games row was written.
pub open spec fn upsert_game(s: StoreModel, g: GameModel) -> StoreModel {
    if s.games.contains_key(g.appid) {
        s
    } else {
        StoreModel { games: s.games.insert(g.appid, g), ..s }
    }
}

/// The tables after a categories row was written.
pub open spec fn upsert_category(s: StoreModel, c: CategoryModel) -> StoreModel {
    if blocked(s, c) {
        s
    } else {
        StoreModel { categories: s.categories.insert(c.id, c.name), ..s }
    }
}

/// The tables after a joining row was written.
pub open spec fn upsert_game_category(s: StoreModel, l: GameCategoryRow) -> StoreModel {
    StoreModel { game_categories: s.game_categories.insert(l), ..s }
}

/// The tables after categories rows were written one after the other.
pub open spec fn upsert_categories(s: StoreModel, cats: Seq<CategoryModel>) -> StoreModel
    decreases cats.len(),
{
    if cats.len() == 0 {
        s
    } else {
        upsert_category(upsert_categories(s, cats.drop_last()), cats.last())
    }
}

/// The tables after everything a record contributes was written: the game,
/// then its categories in order, and the rows that join them.
pub open spec fn written(s: StoreModel, n: NormalizedModel) -> StoreModel {
    let with_game = match n.game {
        Some(g) => upsert_game(s, g),
        None => s,
    };
    let with_categories = upsert_categories(with_game, n.categories);
    StoreModel {
        game_categories: with_categories.game_categories.union(n.game_categories.to_set()),
        ..with_categories
    }
}

/// `t` holds every row of `s`, unchanged.
pub open spec fn extends(t: StoreModel, s: StoreModel) -> bool {
    &&& forall|k: u32| #[trigger] s.games.contains_key(k) ==> t.games.contains_key(k) && t.games[k] == s.games[k]
    &&& forall|k: u32| #[trigger]
        s.categories.contains_key(k) ==> t.categories.contains_key(k) && t.categories[k]
            == s.categories[k]
    &&& s.game_categories.subset_of(t.game_categories)
}

/// Writing `n` would change nothing in `s`: its game is stored, each of its
/// categories is blocked, and each of its joining rows is there.
pub open spec fn covers(s: StoreModel, n: NormalizedModel) -> bool {
    &&& n.game matches Some(g) ==> s.games.contains_key(g.appid)
    &&& forall|i: int| 0 <= i < n.categories.len() ==> blocked(s, #[trigger] n.categories[i])
    &&& forall|i: int|
        0 <= i < n.game_categories.len() ==> s.game_categories.contains(
            #[trigger] n.game_categories[i],
        )
}

/// A category that is blocked stays blocked in tables that hold more.
pub proof fn blocked_stays(s: StoreModel, t: StoreModel, c: CategoryModel)
    requires
        extends(t, s),
        blocked(s, c),
    ensures
        blocked(t, c),
{
    if !s.categories.contains_key(c.id) {
        let id = choose|id: u32| #[trigger] s.categories.contains_key(id) && s.categories[id] == c.name;
        assert(t.categories.contains_key(id) && t.categories[id] == c.name);
    }
}

/// Writing one category keeps every row, and keeps the names distinct.
pub proof fn upsert_category_extends(s: StoreModel, c: CategoryModel)
    ensures
        extends(upsert_category(s, c), s),
        blocked(upsert_category(s, c), c),
        names_unique(s) ==> names_unique(upsert_category(s, c)),
        upsert_category(s, c).games == s.games,
        upsert_category(s, c).game_categories == s.game_categories,
{
    let t = upsert_category(s, c);
    if !blocked(s, c) {
        assert(t.categories.contains_key(c.id));
        if names_unique(s) {
            assert forall|a: u32, b: u32|
                #![trigger t.categories[a], t.categories[b]]
                t.categories.contains_key(a) && t.categories.contains_key(b) && t.categories[a]
                    == t.categories[b] implies a == b by {
                if a != b {
                    if a == c.id {
                        assert(s.categories.contains_key(b) && s.categories[b] == c.name);
                    } else if b == c.id {
                        assert(s.categories.contains_key(a) && s.categories[a] == c.name);
                    } else {
                        assert(s.categories[a] == s.categories[b]);
                    }
                }
            }
        }
    }
}

/// Writing categories keeps every row, blocks each of them afterwards, keeps
/// the names distinct and leaves the other two tables alone.
pub proof fn upsert_categories_extends(s: StoreModel, cats: Seq<CategoryModel>)
    ensures
        extends(upsert_categories(s, cats), s),
        forall|i: int| 0 <= i < cats.len() ==> blocked(upsert_categories(s, cats), #[trigger] cats[i]),
        names_unique(s) ==> names_unique(upsert_categories(s, cats)),
        upsert_categories(s, cats).games == s.games,
        upsert_categories(s, cats).game_categories == s.game_categories,
    decreases cats.len(),
{
    if cats.len() > 0 {
        let before = upsert_categories(s, cats.drop_last());
        let after = upsert_category(before, cats.last());
        upsert_categories_extends(s, cats.drop_last());
        upsert_category_extends(before, cats.last());
        assert forall|i: int| 0 <= i < cats.len() implies blocked(after, #[trigger] cats[i]) by {
            if i < cats.len() - 1 {
                assert(cats.drop_last()[i] == cats[i]);
                blocked_stays(before, after, cats[i]);
            }
        }
    }
}

/// Categories that are all blocked leave the tables as they are.
pub proof fn upsert_categories_absorbed(s: StoreModel, cats: Seq<CategoryModel>)
    requires
        forall|i: int| 0 <= i < cats.len() ==> blocked(s, #[trigger] cats[i]),
    ensures
        upsert_categories(s, cats) == s,
    decreases cats.len(),
{
    if cats.len() > 0 {
        assert forall|i: int| 0 <= i < cats.drop_last().len() implies blocked(
            s,
            #[trigger] cats.drop_last()[i],
        ) by {
            assert(cats.drop_last()[i] == cats[i]);
        }
        upsert_categories_absorbed(s, cats.drop_last());
        assert(blocked(s, cats[cats.len() - 1]));
    }
}

/// Holding more is reflexive and transitive.
pub proof fn extends_chain(u: StoreModel, t: StoreModel, s: StoreModel)
    requires
        extends(u, t),
        extends(t, s),
    ensures
        extends(u, s),
        extends(s, s),
{
}

/// Stored rows are never overwritten or removed: the tables after a write
/// hold every row they held before, and the write's own rows are covered.
/// Distinct category names stay distinct.
pub proof fn written_extends(s: StoreModel, n: NormalizedModel)
    ensures
        extends(written(s, n), s),
        covers(written(s, n), n),
        names_unique(s) ==> names_unique(written(s, n)),
{
    let with_game = match n.game {
        Some(g) => upsert_game(s, g),
        None => s,
    };
    let with_categories = upsert_categories(with_game, n.categories);
    let done = written(s, n);
    upsert_categories_extends(with_game, n.categories);
    assert(extends(with_game, s));
    assert(names_unique(s) ==> names_unique(with_game));
    assert(done.categories == with_categories.categories);
    assert(extends(done, with_categories));
    extends_chain(with_categories, with_game, s);
    extends_chain(done, with_categories, s);
    assert forall|i: int| 0 <= i < n.game_categories.len() implies done.game_categories.contains(
        #[trigger] n.game_categories[i],
    ) by {
        assert(n.game_categories.to_set().contains(n.game_categories[i]));
    }
    assert forall|i: int| 0 <= i < n.categories.len() implies blocked(
        done,
        #[trigger] n.categories[i],
    ) by {
        blocked_stays(with_categories, done, n.categories[i]);
    }
}

/// The games table after a write holds what it held and the game that was
/// written, nothing else.
pub proof fn written_games(s: StoreModel, n: NormalizedModel, appid: u32)
    ensures
        written(s, n).games.contains_key(appid) <==> s.games.contains_key(appid) || (n.game matches Some(
            g,
        ) && g.appid == appid),
{
    let with_game = match n.game {
        Some(g) => upsert_game(s, g),
        None => s,
    };
    upsert_categories_extends(with_game, n.categories);
}

/// What is covered stays covered in tables that hold more.
pub proof fn covers_stays(s: StoreModel, t: StoreModel, n: NormalizedModel)
    requires
        extends(t, s),
        covers(s, n),
    ensures
        covers(t, n),
{
    assert forall|i: int| 0 <= i < n.categories.len() implies blocked(t, #[trigger] n.categories[i]) by {
        blocked_stays(s, t, n.categories[i]);
    }
    if let Some(g) = n.game {
        assert(s.games.contains_key(g.appid));
    }
}

/// A write that is covered changes nothing.
pub proof fn written_absorbed(s: StoreModel, n: NormalizedModel)
    requires
        covers(s, n),
    ensures
        written(s, n) == s,
{
    upsert_categories_absorbed(s, n.categories);
    assert(s.game_categories.union(n.game_categories.to_set()) =~= s.game_categories);
}

/// Writing the same rows a second time changes nothing: no row is
/// duplicated and none is overwritten.
pub proof fn written_twice(s: StoreModel, n: NormalizedModel)
    ensures
        written(written(s, n), n) == written(s, n),
{
    written_extends(s, n);
    written_absorbed(written(s, n), n);
}

} // verus!
