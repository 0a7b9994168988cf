pub mod ad_account;
pub mod screen_account;
pub mod shared;

pub use ad_account::{AdAccount, MAX_CONTENT_CID_LEN};
pub use screen_account::ScreenAccount;
pub use shared::{
    Dimensions, SEED_AD, SEED_SCREEN, TAG_ALCOHOL, TAG_BETTING, TAG_CRYPTO, TAG_NONE, TAG_NSFW,
    TAG_POLITICAL,
};
