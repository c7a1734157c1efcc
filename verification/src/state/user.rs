//! The caller of an API request, as classified from its `client` header.
//!
//! A request either comes from the bot process — `DiscordBot <token>` —
//! or from a dashboard user; bot-only endpoints refuse everyone else.

use vstd::prelude::*;

verus! {

/// Who is making the request.
#[derive(Debug, Clone)]
pub enum RequestedUser {
    /// An ordinary dashboard user without a forwarded token.
    User,
    /// The bot process, carrying its token.
    Bot(Bot),
    /// A dashboard user with an OAuth access token.
    UserWithToken(User),
}

/// A dashboard user's OAuth access token.
#[derive(Debug, Clone)]
pub struct User {
    access_token: String,
}

/// The bot process's token.
#[derive(Debug, Clone)]
pub struct Bot {
    token: String,
}

impl User {
    pub fn new(access_token: String) -> (r: Self)
        ensures
            r.spec_access_token() == access_token@,
    {
        Self { access_token }
    }

    pub fn access_token(&self) -> (r: &str)
        ensures
            r@ == self.spec_access_token(),
    {
        self.access_token.as_str()
    }

    /// The token value, for contracts.
    pub closed spec fn spec_access_token(&self) -> Seq<char> {
        self.access_token@
    }
}

impl Bot {
    pub fn new(token: String) -> (r: Self)
        ensures
            r.spec_token() == token@,
    {
        Self { token }
    }

    pub fn token(&self) -> (r: &str)
        ensures
            r@ == self.spec_token(),
    {
        self.token.as_str()
    }

    /// The token value, for contracts.
    pub closed spec fn spec_token(&self) -> Seq<char> {
        self.token@
    }
}

/// A `client` header identifying the bot process: the word `DiscordBot`,
/// one space, and a non-empty token without further spaces.
pub open spec fn is_bot_client(c: Seq<char>) -> bool {
    &&& c.len() > 11
    &&& c.subrange(0, 11) == "DiscordBot "@
    &&& forall|i: int| 11 <= i < c.len() ==> #[trigger] c[i] != ' '
}

/// The token carried by a bot `client` header.
pub open spec fn client_token(c: Seq<char>) -> Seq<char> {
    c.subrange(11, c.len() as int)
}

impl RequestedUser {
    pub fn is_bot(&self) -> (r: bool)
        ensures
            r == (*self is Bot),
    {
        matches!(self, RequestedUser::Bot(_))
    }

    pub fn is_user(&self) -> (r: bool)
        ensures
            r == (*self is User),
    {
        matches!(self, RequestedUser::User)
    }

    /// Refuses a bot-only endpoint to anyone but the bot process, with
    /// the HTTP status and message the caller is sent.
    pub fn bot_protection(&self, status: &str) -> (r: Result<(), (u16, String)>)
        ensures
            r is Ok <==> *self is Bot,
            r matches Err((code, msg)) ==> code == 403 && msg@ == status@
                + " is only available to registered bots"@,
    {
        if self.is_bot() {
            Ok(())
        } else {
            let mut msg = status.to_owned();
            msg.append(" is only available to registered bots");
            Err((403, msg))
        }
    }

    /// Classifies a request from its `client` header: `DiscordBot <token>`
    /// is the bot process, anything else — a missing header included — is
    /// an ordinary user.
    pub fn classify_client(client: Option<&str>) -> (r: RequestedUser)
        ensures
            match client {
                None => r is User,
                Some(c) => {
                    if is_bot_client(c@) {
                        r matches RequestedUser::Bot(b) && b.spec_token() == client_token(c@)
                    } else {
                        r is User
                    }
                },
            },
    {
        let c = match client {
            None => {
                return RequestedUser::User;
            },
            Some(c) => c,
        };
        proof {
            reveal_strlit("DiscordBot ");
        }
        let n = c.unicode_len();
        if n <= 11 {
            return RequestedUser::User;
        }
        let head_ok = c.get_char(0) == 'D' && c.get_char(1) == 'i' && c.get_char(2) == 's'
            && c.get_char(3) == 'c' && c.get_char(4) == 'o' && c.get_char(5) == 'r'
            && c.get_char(6) == 'd' && c.get_char(7) == 'B' && c.get_char(8) == 'o'
            && c.get_char(9) == 't' && c.get_char(10) == ' ';
        proof {
            let p = c@.subrange(0, 11);
            if head_ok {
                assert(p =~= "DiscordBot "@);
            } else {
                assert(p[0] == c@[0]);
                assert(p[1] == c@[1]);
                assert(p[2] == c@[2]);
                assert(p[3] == c@[3]);
                assert(p[4] == c@[4]);
                assert(p[5] == c@[5]);
                assert(p[6] == c@[6]);
                assert(p[7] == c@[7]);
                assert(p[8] == c@[8]);
                assert(p[9] == c@[9]);
                assert(p[10] == c@[10]);
            }
        }
        if !head_ok {
            return RequestedUser::User;
        }
        let mut i: usize = 11;
        while i < n
            invariant
                client == Some(c),
                11 <= i <= n,
                n == c@.len(),
                forall|k: int| 11 <= k < i ==> #[trigger] c@[k] != ' ',
            decreases n - i,
        {
            if c.get_char(i) == ' ' {
                return RequestedUser::User;
            }
            i = i + 1;
        }
        let token = c.substring_char(11, n).to_owned();
        RequestedUser::Bot(Bot::new(token))
    }

    /// Decides the identifying header the gateway route forwards to the
    /// actor: a dashboard user with a token is scoped to the requested
    /// guild, the bot process must present the configured bot token, and
    /// an anonymous user is refused with the HTTP status returned.
    pub fn gateway_user_agent(&self, guild_id: &str, bot_token: &String) -> (r: Result<
        String,
        u16,
    >)
        ensures
            *self is UserWithToken ==> (r matches Ok(ua) && ua@ == "DiscordGuild/"@ + guild_id@),
            *self matches RequestedUser::Bot(b) ==> (if b.spec_token() == bot_token@ {
                r matches Ok(ua) && ua@ == "DiscordBot"@
            } else {
                r == Err::<String, u16>(401)
            }),
            *self is User ==> r == Err::<String, u16>(401),
    {
        match self {
            RequestedUser::UserWithToken(_) => {
                let mut ua = String::from_str("DiscordGuild/");
                ua.append(guild_id);
                Ok(ua)
            },
            RequestedUser::Bot(bot) => {
                if bot.token.eq(bot_token) {
                    Ok(String::from_str("DiscordBot"))
                } else {
                    Err(401)
                }
            },
            RequestedUser::User => Err(401),
        }
    }
}

} // verus!
