//! The records that a lookup returns: a player's profile, ranked standings,
//! champion masteries and matches.

use vstd::prelude::*;

verus! {

/// A player's profile.
#[derive(Debug)]
pub struct Summoner {
    pub name: String,
    /// The identifier by which standings and masteries are looked up.
    pub id: String,
    /// The identifier by which matches are looked up.
    pub puuid: String,
    pub summoner_level: u64,
}

impl Clone for Summoner {
    fn clone(&self) -> (r: Summoner)
        ensures
            r == *self,
    {
        Summoner {
            name: self.name.clone(),
            id: self.id.clone(),
            puuid: self.puuid.clone(),
            summoner_level: self.summoner_level,
        }
    }
}

/// A tier of a ranked ladder.
#[derive(Clone, Copy, Debug, PartialEq, Eq, Structural)]
pub enum Tier {
    Challenger,
    Grandmaster,
    Master,
    Diamond,
    Platinum,
    Gold,
    Silver,
    Bronze,
    Iron,
    Unranked,
}

impl Tier {
    /// The tier's name in capitals.
    pub open spec fn spec_name(self) -> Seq<char> {
        match self {
            Tier::Challenger => "CHALLENGER"@,
            Tier::Grandmaster => "GRANDMASTER"@,
            Tier::Master => "MASTER"@,
            Tier::Diamond => "DIAMOND"@,
            Tier::Platinum => "PLATINUM"@,
            Tier::Gold => "GOLD"@,
            Tier::Silver => "SILVER"@,
            Tier::Bronze => "BRONZE"@,
            Tier::Iron => "IRON"@,
            Tier::Unranked => "UNRANKED"@,
        }
    }

    /// The tier's name in capitals.
    pub fn name(self) -> (s: &'static str)
        ensures
            s@ == self.spec_name(),
    {
        match self {
            Tier::Challenger => "CHALLENGER",
            Tier::Grandmaster => "GRANDMASTER",
            Tier::Master => "MASTER",
            Tier::Diamond => "DIAMOND",
            Tier::Platinum => "PLATINUM",
            Tier::Gold => "GOLD",
            Tier::Silver => "SILVER",
            Tier::Bronze => "BRONZE",
            Tier::Iron => "IRON",
            Tier::Unranked => "UNRANKED",
        }
    }
}

/// A division within a tier.
#[derive(Clone, Copy, Debug, PartialEq, Eq, Structural)]
pub enum Division {
    I,
    II,
    III,
    IV,
    V,
}

impl Division {
    /// The division as a Roman numeral.
    pub open spec fn spec_name(self) -> Seq<char> {
        match self {
            Division::I => "I"@,
            Division::II => "II"@,
            Division::III => "III"@,
            Division::IV => "IV"@,
            Division::V => "V"@,
        }
    }

    /// The division as a Roman numeral.
    pub fn name(self) -> (s: &'static str)
        ensures
            s@ == self.spec_name(),
    {
        match self {
            Division::I => "I",
            Division::II => "II",
            Division::III => "III",
            Division::IV => "IV",
            Division::V => "V",
        }
    }
}

/// A player's standing in one ranked queue.
#[derive(Debug)]
pub struct LeagueEntry {
    pub summoner_name: String,
    pub queue_type: String,
    pub tier: Option<Tier>,
    pub rank: Option<Division>,
    pub wins: u32,
    pub losses: u32,
    pub hot_streak: bool,
}

impl Clone for LeagueEntry {
    fn clone(&self) -> (r: LeagueEntry)
        ensures
            r == *self,
    {
        LeagueEntry {
            summoner_name: self.summoner_name.clone(),
            queue_type: self.queue_type.clone(),
            tier: self.tier,
            rank: self.rank,
            wins: self.wins,
            losses: self.losses,
            hot_streak: self.hot_streak,
        }
    }
}

/// A player's mastery of one champion.
#[derive(Clone, Copy, Debug)]
pub struct ChampionMastery {
    /// The champion's number.
    pub champion_id: i16,
    pub champion_points: u32,
    pub champion_level: u32,
}

/// The side of a match on which a participant played.
#[derive(Clone, Copy, Debug, PartialEq, Eq, Structural)]
pub enum Team {
    Blue,
    Red,
    Other,
}

/// One player's part in a match.
#[derive(Debug)]
pub struct Participant {
    pub summoner_name: String,
    pub champion_name: String,
    pub team_position: String,
    pub team: Team,
    pub kills: u32,
    pub deaths: u32,
    pub assists: u32,
    pub total_minions_killed: u32,
    pub win: bool,
}

impl Clone for Participant {
    fn clone(&self) -> (r: Participant)
        ensures
            r == *self,
    {
        Participant {
            summoner_name: self.summoner_name.clone(),
            champion_name: self.champion_name.clone(),
            team_position: self.team_position.clone(),
            team: self.team,
            kills: self.kills,
            deaths: self.deaths,
            assists: self.assists,
            total_minions_killed: self.total_minions_killed,
            win: self.win,
        }
    }
}

/// What one side of a match ended with.
#[derive(Debug)]
pub struct TeamResult {
    pub team: Team,
    pub win: bool,
    /// The numbers of the champions that the side banned.
    pub bans: Vec<i16>,
}

/// One finished match.
#[derive(Debug)]
pub struct Match {
    pub game_mode: String,
    pub teams: Vec<TeamResult>,
    pub participants: Vec<Participant>,
}

} // verus!
