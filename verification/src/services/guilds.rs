//! Guild listings fetched from the chat platform on a user's or the bot's
//! behalf, and the logic that intersects them.

use vstd::prelude::*;

verus! {

/// The slice of a guild object the dashboard needs.
#[derive(Debug, Clone, PartialEq, Eq)]
pub struct PartialDiscordGuild {
    pub id: String,
    pub name: String,
    pub icon: Option<String>,
    pub banner: Option<String>,
    pub owner: bool,
    pub permissions: String,
    pub features: Vec<String>,
    pub approximate_member_count: Option<u64>,
    pub approximate_presence_count: Option<u64>,
}

/// Some guild in the listing carries the given id.
pub open spec fn has_guild_id(gs: Seq<PartialDiscordGuild>, id: Seq<char>) -> bool {
    exists|i: int| 0 <= i < gs.len() && (#[trigger] gs[i]).id@ == id
}

/// The guilds of `mine` that also occur, by id, in `others`, in their
/// original order.
pub open spec fn spec_mutual_guilds(
    mine: Seq<PartialDiscordGuild>,
    others: Seq<PartialDiscordGuild>,
) -> Seq<PartialDiscordGuild> {
    mine.filter(|g: PartialDiscordGuild| has_guild_id(others, g.id@))
}

proof fn lemma_mutual_snoc(
    mine: Seq<PartialDiscordGuild>,
    g: PartialDiscordGuild,
    others: Seq<PartialDiscordGuild>,
)
    ensures
        spec_mutual_guilds(mine.push(g), others) == if has_guild_id(others, g.id@) {
            spec_mutual_guilds(mine, others).push(g)
        } else {
            spec_mutual_guilds(mine, others)
        },
{
    reveal(Seq::filter);
    let whole = mine.push(g);
    assert(whole.drop_last() =~= mine);
    assert(whole.last() == g);
}

/// Intersects two guild listings: keeps every guild of `mine` whose id
/// also occurs in `others`.  This is the decision inside the mutual-guilds
/// query, applied after both listings were fetched.
pub fn mutual_guilds(
    mine: Vec<PartialDiscordGuild>,
    others: &Vec<PartialDiscordGuild>,
) -> (r: Vec<PartialDiscordGuild>)
    ensures
        r@ == spec_mutual_guilds(mine@, others@),
{
    let ghost orig = mine@;
    let mut rest = mine;
    let mut out: Vec<PartialDiscordGuild> = Vec::new();
    let ghost mut k: int = 0;
    proof {
        assert(orig.take(0) =~= Seq::<PartialDiscordGuild>::empty());
        assert(spec_mutual_guilds(Seq::empty(), others@) =~= Seq::<PartialDiscordGuild>::empty())
            by {
            reveal(Seq::filter);
        }
    }
    while rest.len() > 0
        invariant
            0 <= k <= orig.len(),
            rest@ == orig.skip(k),
            out@ == spec_mutual_guilds(orig.take(k), others@),
        decreases rest@.len(),
    {
        let g = rest.remove(0);
        proof {
            assert(g == orig[k]);
            assert(rest@ =~= orig.skip(k + 1));
        }
        let mut held: bool = false;
        let mut j: usize = 0;
        while j < others.len()
            invariant
                0 <= j <= others@.len(),
                held <==> exists|m: int|
                    0 <= m < j && (#[trigger] others@[m]).id@ == g.id@,
            decreases others@.len() - j,
        {
            if others[j].id.eq(&g.id) {
                held = true;
                proof {
                    assert(others@[j as int].id@ == g.id@);
                }
            }
            j = j + 1;
        }
        proof {
            assert(held == has_guild_id(others@, g.id@));
            lemma_mutual_snoc(orig.take(k), g, others@);
            assert(orig.take(k + 1) =~= orig.take(k).push(g));
        }
        if held {
            out.push(g);
        }
        proof {
            k = k + 1;
        }
    }
    proof {
        assert(orig.take(k) =~= orig);
    }
    out
}

} // verus!
