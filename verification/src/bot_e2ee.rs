//! Bot E2EE key vault rules: the bot's device id, the vault errors with
//! their codes, statuses and bilingual messages, the operator master key
//! and the AES-256-GCM sealing of key material at rest, and the check that
//! a device can receive deferred messages.
use vstd::prelude::*;

use vstd::string::StringExecFns;

use crate::bytes::{decimal_text, push_decimal_text, to_array12, to_array32};
use crate::identity::{prekey_signed, verify_signed_prekey, IdentityPublic, SignedPreKeyPublic};
use crate::message::DateTime;
use crate::primitives::{aes_gcm_open, aes_gcm_opened, aes_gcm_seal, aes_gcm_sealed, b64_decode, base64_decoded, random_bytes};

verus! {

/// Device id of the bot with user id `uid`: `bot:{uid}`.
pub open spec fn bot_device_text(uid: i64) -> Seq<char> {
    if uid < 0 {
        "bot:-"@ + decimal_text((-uid) as nat)
    } else {
        "bot:"@ + decimal_text(uid as nat)
    }
}

/// Different bots have different device ids.
pub proof fn law_bot_device_id_injective(a: i64, b: i64)
    requires
        bot_device_text(a) == bot_device_text(b),
    ensures
        a == b,
{
    reveal_strlit("bot:-");
    reveal_strlit("bot:");
    let ta = bot_device_text(a);
    if a < 0 && b < 0 {
        assert(ta.subrange(5, ta.len() as int) =~= decimal_text((-a) as nat));
        assert(ta.subrange(5, ta.len() as int) =~= decimal_text((-b) as nat));
        crate::bytes::lemma_decimal_text_injective((-a) as nat, (-b) as nat);
    } else if a >= 0 && b >= 0 {
        assert(ta.subrange(4, ta.len() as int) =~= decimal_text(a as nat));
        assert(ta.subrange(4, ta.len() as int) =~= decimal_text(b as nat));
        crate::bytes::lemma_decimal_text_injective(a as nat, b as nat);
    } else if a < 0 {
        crate::bytes::lemma_decimal_text_nonempty(b as nat);
        crate::bytes::lemma_decimal_text_digits(b as nat);
        assert(ta[4] == '-');
        assert(bot_device_text(b)[4] == decimal_text(b as nat)[0]);
    } else {
        crate::bytes::lemma_decimal_text_nonempty(a as nat);
        crate::bytes::lemma_decimal_text_digits(a as nat);
        assert(bot_device_text(b)[4] == '-');
        assert(ta[4] == decimal_text(a as nat)[0]);
    }
}

/// The device id of a bot.
pub fn bot_device_id(uid: i64) -> (s: String)
    ensures
        s@ == bot_device_text(uid),
{
    if uid < 0 {
        let mut s = "bot:-".to_owned();
        let magnitude: u64 = if uid == i64::MIN { 0x8000_0000_0000_0000 } else { (-uid) as u64 };
        push_decimal_text(&mut s, magnitude);
        s
    } else {
        let mut s = "bot:".to_owned();
        push_decimal_text(&mut s, uid as u64);
        s
    }
}

/// Errors of the bot key vault.
#[derive(Debug, Clone)]
pub enum BotE2eeError {
    NotBot,
    MissingMasterKey,
    InvalidMasterKey,
    VaultDecryptFailed,
    NotInitialized,
    AlreadyInitialized,
    ConfirmationRequired,
    ChannelNotFound,
    NoUsableRecipientDevice,
    MessageNotFound,
    EnvelopeNotFound,
    OneTimePrekeyUnavailable,
    MetadataMismatch,
    Crypto(String),
    Database(String),
    Internal(String),
}

/// Stable code of an error.
pub open spec fn bot_error_code(e: BotE2eeError) -> Seq<char> {
    match e {
        BotE2eeError::NotBot => "E2E_BOT_NOT_A_BOT"@,
        BotE2eeError::MissingMasterKey => "E2E_BOT_MASTER_KEY_MISSING"@,
        BotE2eeError::InvalidMasterKey => "E2E_BOT_MASTER_KEY_INVALID"@,
        BotE2eeError::VaultDecryptFailed => "E2E_BOT_VAULT_DECRYPT_FAILED"@,
        BotE2eeError::NotInitialized => "E2E_BOT_NOT_INITIALIZED"@,
        BotE2eeError::AlreadyInitialized => "E2E_BOT_ALREADY_INITIALIZED"@,
        BotE2eeError::ConfirmationRequired => "E2E_BOT_REBUILD_CONFIRMATION_REQUIRED"@,
        BotE2eeError::ChannelNotFound => "E2E_BOT_CHANNEL_NOT_FOUND"@,
        BotE2eeError::NoUsableRecipientDevice => "E2E_BOT_NO_USABLE_RECIPIENT_DEVICE"@,
        BotE2eeError::MessageNotFound => "E2E_BOT_MESSAGE_NOT_FOUND"@,
        BotE2eeError::EnvelopeNotFound => "E2E_BOT_ENVELOPE_NOT_FOUND"@,
        BotE2eeError::OneTimePrekeyUnavailable => "E2E_BOT_ONE_TIME_PREKEY_UNAVAILABLE"@,
        BotE2eeError::MetadataMismatch => "E2E_BOT_METADATA_MISMATCH"@,
        BotE2eeError::Crypto(_) => "E2E_BOT_CRYPTO_ERROR"@,
        BotE2eeError::Database(_) => "E2E_BOT_DATABASE_ERROR"@,
        BotE2eeError::Internal(_) => "E2E_BOT_INTERNAL_ERROR"@,
    }
}

/// English message of an error.
pub open spec fn bot_message_en(e: BotE2eeError) -> Seq<char> {
    match e {
        BotE2eeError::NotBot => "This user is not a Bot."@,
        BotE2eeError::MissingMasterKey => "Bot E2EE master key file is missing. Set VOCECHAT_BOT_E2EE_MASTER_KEY_FILE \
                 to a file containing a base64-encoded 32-byte key."@,
        BotE2eeError::InvalidMasterKey => "Bot E2EE master key is invalid: it must decode to exactly 32 bytes."@,
        BotE2eeError::VaultDecryptFailed => "Failed to decrypt the Bot's stored key material with the current master key."@,
        BotE2eeError::NotInitialized => "This Bot's E2EE has not been initialized yet."@,
        BotE2eeError::AlreadyInitialized => "This Bot's E2EE has already been initialized."@,
        BotE2eeError::ConfirmationRequired => "Rebuilding a Bot's E2EE identity is destructive (all prior keys are \
                 discarded and existing sessions with this Bot will need to re-establish). \
                 Resend with \"confirm\": true to proceed."@,
        BotE2eeError::ChannelNotFound => "Channel not found."@,
        BotE2eeError::NoUsableRecipientDevice => "The recipient has no usable E2EE device yet."@,
        BotE2eeError::MessageNotFound => "Message not found."@,
        BotE2eeError::EnvelopeNotFound => "Envelope not found."@,
        BotE2eeError::OneTimePrekeyUnavailable => "The referenced one-time prekey is not available."@,
        BotE2eeError::MetadataMismatch => "Message metadata failed commitment verification."@,
        BotE2eeError::Crypto(detail) => "Bot E2EE cryptographic operation failed: "@ + detail@,
        BotE2eeError::Database(detail) => "Bot E2EE database error: "@ + detail@,
        BotE2eeError::Internal(detail) => "Bot E2EE internal error: "@ + detail@,
    }
}

/// Chinese message of an error.
pub open spec fn bot_message_zh(e: BotE2eeError) -> Seq<char> {
    match e {
        BotE2eeError::NotBot => "\u{8be5}\u{7528}\u{6237}\u{4e0d}\u{662f}\u{673a}\u{5668}\u{4eba}\u{ff08}Bot\u{ff09}\u{3002}"@,
        BotE2eeError::MissingMasterKey => "\u{7f3a}\u{5c11} Bot \u{7aef}\u{5230}\u{7aef}\u{52a0}\u{5bc6}\u{4e3b}\u{5bc6}\u{94a5}\u{6587}\u{4ef6}\u{3002}\u{8bf7}\u{8bbe}\u{7f6e} VOCECHAT_BOT_E2EE_MASTER_KEY_FILE \
                 \u{6307}\u{5411}\u{4e00}\u{4e2a}\u{5305}\u{542b} base64 \u{7f16}\u{7801}\u{7684} 32 \u{5b57}\u{8282}\u{5bc6}\u{94a5}\u{7684}\u{6587}\u{4ef6}\u{3002}"@,
        BotE2eeError::InvalidMasterKey => "Bot \u{7aef}\u{5230}\u{7aef}\u{52a0}\u{5bc6}\u{4e3b}\u{5bc6}\u{94a5}\u{65e0}\u{6548}\u{ff1a}\u{89e3}\u{7801}\u{540e}\u{5fc5}\u{987b}\u{6070}\u{597d}\u{4e3a} 32 \u{5b57}\u{8282}\u{3002}"@,
        BotE2eeError::VaultDecryptFailed => "\u{4f7f}\u{7528}\u{5f53}\u{524d}\u{4e3b}\u{5bc6}\u{94a5}\u{89e3}\u{5bc6} Bot \u{7684}\u{5bc6}\u{94a5}\u{6750}\u{6599}\u{5931}\u{8d25}\u{3002}"@,
        BotE2eeError::NotInitialized => "\u{8be5} Bot \u{7684}\u{7aef}\u{5230}\u{7aef}\u{52a0}\u{5bc6}\u{5c1a}\u{672a}\u{521d}\u{59cb}\u{5316}\u{3002}"@,
        BotE2eeError::AlreadyInitialized => "\u{8be5} Bot \u{7684}\u{7aef}\u{5230}\u{7aef}\u{52a0}\u{5bc6}\u{5df2}\u{7ecf}\u{521d}\u{59cb}\u{5316}\u{8fc7}\u{3002}"@,
        BotE2eeError::ConfirmationRequired => "\u{91cd}\u{5efa} Bot \u{7684}\u{7aef}\u{5230}\u{7aef}\u{52a0}\u{5bc6}\u{8eab}\u{4efd}\u{662f}\u{7834}\u{574f}\u{6027}\u{64cd}\u{4f5c}\u{ff08}\u{4f1a}\u{4e22}\u{5f03}\u{6240}\u{6709}\u{65e7}\u{5bc6}\u{94a5}\u{ff0c}\u{4e14}\u{4e0e}\u{8be5} Bot \
                 \u{7684}\u{73b0}\u{6709}\u{4f1a}\u{8bdd}\u{9700}\u{8981}\u{91cd}\u{65b0}\u{5efa}\u{7acb}\u{ff09}\u{3002}\u{8bf7}\u{5728}\u{8bf7}\u{6c42}\u{4e2d}\u{5e26}\u{4e0a} \"confirm\": true \u{4ee5}\u{7ee7}\u{7eed}\u{3002}"@,
        BotE2eeError::ChannelNotFound => "\u{672a}\u{627e}\u{5230}\u{8be5}\u{9891}\u{9053}\u{3002}"@,
        BotE2eeError::NoUsableRecipientDevice => "\u{63a5}\u{6536}\u{8005}\u{76ee}\u{524d}\u{6ca1}\u{6709}\u{53ef}\u{7528}\u{7684}\u{7aef}\u{5230}\u{7aef}\u{52a0}\u{5bc6}\u{8bbe}\u{5907}\u{3002}"@,
        BotE2eeError::MessageNotFound => "\u{672a}\u{627e}\u{5230}\u{8be5}\u{6d88}\u{606f}\u{3002}"@,
        BotE2eeError::EnvelopeNotFound => "\u{672a}\u{627e}\u{5230}\u{5bf9}\u{5e94}\u{7684}\u{5bc6}\u{94a5}\u{4fe1}\u{5c01}\u{3002}"@,
        BotE2eeError::OneTimePrekeyUnavailable => "\u{5f15}\u{7528}\u{7684}\u{4e00}\u{6b21}\u{6027}\u{9884}\u{5171}\u{4eab}\u{5bc6}\u{94a5}\u{4e0d}\u{53ef}\u{7528}\u{3002}"@,
        BotE2eeError::MetadataMismatch => "\u{6d88}\u{606f}\u{5143}\u{6570}\u{636e}\u{672a}\u{901a}\u{8fc7}\u{627f}\u{8bfa}\u{9a8c}\u{8bc1}\u{3002}"@,
        BotE2eeError::Crypto(detail) => "Bot \u{7aef}\u{5230}\u{7aef}\u{52a0}\u{5bc6}\u{64cd}\u{4f5c}\u{5931}\u{8d25}\u{ff1a}"@ + detail@,
        BotE2eeError::Database(detail) => "Bot \u{7aef}\u{5230}\u{7aef}\u{52a0}\u{5bc6}\u{6570}\u{636e}\u{5e93}\u{9519}\u{8bef}\u{ff1a}"@ + detail@,
        BotE2eeError::Internal(detail) => "Bot \u{7aef}\u{5230}\u{7aef}\u{52a0}\u{5bc6}\u{5185}\u{90e8}\u{9519}\u{8bef}\u{ff1a}"@ + detail@,
    }
}

/// HTTP status of an error.
pub open spec fn bot_error_status(e: BotE2eeError) -> u16 {
    match e {
        BotE2eeError::NotBot | BotE2eeError::ConfirmationRequired | BotE2eeError::MetadataMismatch => 400,
        BotE2eeError::MissingMasterKey | BotE2eeError::InvalidMasterKey | BotE2eeError::VaultDecryptFailed => 503,
        BotE2eeError::NotInitialized | BotE2eeError::AlreadyInitialized | BotE2eeError::NoUsableRecipientDevice
        | BotE2eeError::OneTimePrekeyUnavailable => 409,
        BotE2eeError::ChannelNotFound | BotE2eeError::MessageNotFound | BotE2eeError::EnvelopeNotFound => 404,
        BotE2eeError::Crypto(_) | BotE2eeError::Database(_) | BotE2eeError::Internal(_) => 500,
    }
}

impl BotE2eeError {
    /// HTTP status of the error.
    pub fn status(&self) -> (s: u16)
        ensures
            s == bot_error_status(*self),
    {
        match self {
            BotE2eeError::NotBot | BotE2eeError::ConfirmationRequired | BotE2eeError::MetadataMismatch => 400,
            BotE2eeError::MissingMasterKey | BotE2eeError::InvalidMasterKey | BotE2eeError::VaultDecryptFailed => 503,
            BotE2eeError::NotInitialized | BotE2eeError::AlreadyInitialized | BotE2eeError::NoUsableRecipientDevice
            | BotE2eeError::OneTimePrekeyUnavailable => 409,
            BotE2eeError::ChannelNotFound | BotE2eeError::MessageNotFound | BotE2eeError::EnvelopeNotFound => 404,
            BotE2eeError::Crypto(_) | BotE2eeError::Database(_) | BotE2eeError::Internal(_) => 500,
        }
    }

    /// Stable machine-readable code.
    pub fn code(&self) -> (c: &'static str)
        ensures
            c@ == bot_error_code(*self),
    {
        match self {
            BotE2eeError::NotBot => "E2E_BOT_NOT_A_BOT",
            BotE2eeError::MissingMasterKey => "E2E_BOT_MASTER_KEY_MISSING",
            BotE2eeError::InvalidMasterKey => "E2E_BOT_MASTER_KEY_INVALID",
            BotE2eeError::VaultDecryptFailed => "E2E_BOT_VAULT_DECRYPT_FAILED",
            BotE2eeError::NotInitialized => "E2E_BOT_NOT_INITIALIZED",
            BotE2eeError::AlreadyInitialized => "E2E_BOT_ALREADY_INITIALIZED",
            BotE2eeError::ConfirmationRequired => "E2E_BOT_REBUILD_CONFIRMATION_REQUIRED",
            BotE2eeError::ChannelNotFound => "E2E_BOT_CHANNEL_NOT_FOUND",
            BotE2eeError::NoUsableRecipientDevice => "E2E_BOT_NO_USABLE_RECIPIENT_DEVICE",
            BotE2eeError::MessageNotFound => "E2E_BOT_MESSAGE_NOT_FOUND",
            BotE2eeError::EnvelopeNotFound => "E2E_BOT_ENVELOPE_NOT_FOUND",
            BotE2eeError::OneTimePrekeyUnavailable => "E2E_BOT_ONE_TIME_PREKEY_UNAVAILABLE",
            BotE2eeError::MetadataMismatch => "E2E_BOT_METADATA_MISMATCH",
            BotE2eeError::Crypto(_) => "E2E_BOT_CRYPTO_ERROR",
            BotE2eeError::Database(_) => "E2E_BOT_DATABASE_ERROR",
            BotE2eeError::Internal(_) => "E2E_BOT_INTERNAL_ERROR",
        }
    }

    /// Message in English.
    pub fn message_en(&self) -> (m: String)
        ensures
            m@ == bot_message_en(*self),
    {
        match self {
            BotE2eeError::NotBot => "This user is not a Bot.".to_owned(),
            BotE2eeError::MissingMasterKey => "Bot E2EE master key file is missing. Set VOCECHAT_BOT_E2EE_MASTER_KEY_FILE \
                 to a file containing a base64-encoded 32-byte key.".to_owned(),
            BotE2eeError::InvalidMasterKey => "Bot E2EE master key is invalid: it must decode to exactly 32 bytes.".to_owned(),
            BotE2eeError::VaultDecryptFailed => "Failed to decrypt the Bot's stored key material with the current master key.".to_owned(),
            BotE2eeError::NotInitialized => "This Bot's E2EE has not been initialized yet.".to_owned(),
            BotE2eeError::AlreadyInitialized => "This Bot's E2EE has already been initialized.".to_owned(),
            BotE2eeError::ConfirmationRequired => "Rebuilding a Bot's E2EE identity is destructive (all prior keys are \
                 discarded and existing sessions with this Bot will need to re-establish). \
                 Resend with \"confirm\": true to proceed.".to_owned(),
            BotE2eeError::ChannelNotFound => "Channel not found.".to_owned(),
            BotE2eeError::NoUsableRecipientDevice => "The recipient has no usable E2EE device yet.".to_owned(),
            BotE2eeError::MessageNotFound => "Message not found.".to_owned(),
            BotE2eeError::EnvelopeNotFound => "Envelope not found.".to_owned(),
            BotE2eeError::OneTimePrekeyUnavailable => "The referenced one-time prekey is not available.".to_owned(),
            BotE2eeError::MetadataMismatch => "Message metadata failed commitment verification.".to_owned(),
            BotE2eeError::Crypto(detail) => {
                let mut m = "Bot E2EE cryptographic operation failed: ".to_owned();
                m.append(detail.as_str());
                m
            },
            BotE2eeError::Database(detail) => {
                let mut m = "Bot E2EE database error: ".to_owned();
                m.append(detail.as_str());
                m
            },
            BotE2eeError::Internal(detail) => {
                let mut m = "Bot E2EE internal error: ".to_owned();
                m.append(detail.as_str());
                m
            },
        }
    }

    /// Message in Chinese.
    pub fn message_zh(&self) -> (m: String)
        ensures
            m@ == bot_message_zh(*self),
    {
        match self {
            BotE2eeError::NotBot => "\u{8be5}\u{7528}\u{6237}\u{4e0d}\u{662f}\u{673a}\u{5668}\u{4eba}\u{ff08}Bot\u{ff09}\u{3002}".to_owned(),
            BotE2eeError::MissingMasterKey => "\u{7f3a}\u{5c11} Bot \u{7aef}\u{5230}\u{7aef}\u{52a0}\u{5bc6}\u{4e3b}\u{5bc6}\u{94a5}\u{6587}\u{4ef6}\u{3002}\u{8bf7}\u{8bbe}\u{7f6e} VOCECHAT_BOT_E2EE_MASTER_KEY_FILE \
                 \u{6307}\u{5411}\u{4e00}\u{4e2a}\u{5305}\u{542b} base64 \u{7f16}\u{7801}\u{7684} 32 \u{5b57}\u{8282}\u{5bc6}\u{94a5}\u{7684}\u{6587}\u{4ef6}\u{3002}".to_owned(),
            BotE2eeError::InvalidMasterKey => "Bot \u{7aef}\u{5230}\u{7aef}\u{52a0}\u{5bc6}\u{4e3b}\u{5bc6}\u{94a5}\u{65e0}\u{6548}\u{ff1a}\u{89e3}\u{7801}\u{540e}\u{5fc5}\u{987b}\u{6070}\u{597d}\u{4e3a} 32 \u{5b57}\u{8282}\u{3002}".to_owned(),
            BotE2eeError::VaultDecryptFailed => "\u{4f7f}\u{7528}\u{5f53}\u{524d}\u{4e3b}\u{5bc6}\u{94a5}\u{89e3}\u{5bc6} Bot \u{7684}\u{5bc6}\u{94a5}\u{6750}\u{6599}\u{5931}\u{8d25}\u{3002}".to_owned(),
            BotE2eeError::NotInitialized => "\u{8be5} Bot \u{7684}\u{7aef}\u{5230}\u{7aef}\u{52a0}\u{5bc6}\u{5c1a}\u{672a}\u{521d}\u{59cb}\u{5316}\u{3002}".to_owned(),
            BotE2eeError::AlreadyInitialized => "\u{8be5} Bot \u{7684}\u{7aef}\u{5230}\u{7aef}\u{52a0}\u{5bc6}\u{5df2}\u{7ecf}\u{521d}\u{59cb}\u{5316}\u{8fc7}\u{3002}".to_owned(),
            BotE2eeError::ConfirmationRequired => "\u{91cd}\u{5efa} Bot \u{7684}\u{7aef}\u{5230}\u{7aef}\u{52a0}\u{5bc6}\u{8eab}\u{4efd}\u{662f}\u{7834}\u{574f}\u{6027}\u{64cd}\u{4f5c}\u{ff08}\u{4f1a}\u{4e22}\u{5f03}\u{6240}\u{6709}\u{65e7}\u{5bc6}\u{94a5}\u{ff0c}\u{4e14}\u{4e0e}\u{8be5} Bot \
                 \u{7684}\u{73b0}\u{6709}\u{4f1a}\u{8bdd}\u{9700}\u{8981}\u{91cd}\u{65b0}\u{5efa}\u{7acb}\u{ff09}\u{3002}\u{8bf7}\u{5728}\u{8bf7}\u{6c42}\u{4e2d}\u{5e26}\u{4e0a} \"confirm\": true \u{4ee5}\u{7ee7}\u{7eed}\u{3002}".to_owned(),
            BotE2eeError::ChannelNotFound => "\u{672a}\u{627e}\u{5230}\u{8be5}\u{9891}\u{9053}\u{3002}".to_owned(),
            BotE2eeError::NoUsableRecipientDevice => "\u{63a5}\u{6536}\u{8005}\u{76ee}\u{524d}\u{6ca1}\u{6709}\u{53ef}\u{7528}\u{7684}\u{7aef}\u{5230}\u{7aef}\u{52a0}\u{5bc6}\u{8bbe}\u{5907}\u{3002}".to_owned(),
            BotE2eeError::MessageNotFound => "\u{672a}\u{627e}\u{5230}\u{8be5}\u{6d88}\u{606f}\u{3002}".to_owned(),
            BotE2eeError::EnvelopeNotFound => "\u{672a}\u{627e}\u{5230}\u{5bf9}\u{5e94}\u{7684}\u{5bc6}\u{94a5}\u{4fe1}\u{5c01}\u{3002}".to_owned(),
            BotE2eeError::OneTimePrekeyUnavailable => "\u{5f15}\u{7528}\u{7684}\u{4e00}\u{6b21}\u{6027}\u{9884}\u{5171}\u{4eab}\u{5bc6}\u{94a5}\u{4e0d}\u{53ef}\u{7528}\u{3002}".to_owned(),
            BotE2eeError::MetadataMismatch => "\u{6d88}\u{606f}\u{5143}\u{6570}\u{636e}\u{672a}\u{901a}\u{8fc7}\u{627f}\u{8bfa}\u{9a8c}\u{8bc1}\u{3002}".to_owned(),
            BotE2eeError::Crypto(detail) => {
                let mut m = "Bot \u{7aef}\u{5230}\u{7aef}\u{52a0}\u{5bc6}\u{64cd}\u{4f5c}\u{5931}\u{8d25}\u{ff1a}".to_owned();
                m.append(detail.as_str());
                m
            },
            BotE2eeError::Database(detail) => {
                let mut m = "Bot \u{7aef}\u{5230}\u{7aef}\u{52a0}\u{5bc6}\u{6570}\u{636e}\u{5e93}\u{9519}\u{8bef}\u{ff1a}".to_owned();
                m.append(detail.as_str());
                m
            },
            BotE2eeError::Internal(detail) => {
                let mut m = "Bot \u{7aef}\u{5230}\u{7aef}\u{52a0}\u{5bc6}\u{5185}\u{90e8}\u{9519}\u{8bef}\u{ff1a}".to_owned();
                m.append(detail.as_str());
                m
            },
        }
    }

    /// `{code}: {message_en}`, as the error is displayed.
    pub fn to_string(&self) -> (s: String)
        ensures
            s@ == bot_error_code(*self) + ": "@ + bot_message_en(*self),
    {
        let mut s = self.code().to_owned();
        s.append(": ");
        let m = self.message_en();
        s.append(m.as_str());
        s
    }
}

} // verus!

verus! {

/// Public bot E2EE status (never any secret material).
#[derive(Debug, Clone)]
pub struct BotE2eeStatus {
    pub uid: i64,
    pub initialized: bool,
    pub device_id: Option<String>,
    pub key_version: Option<i64>,
    pub master_key_available: bool,
    pub created_at: Option<DateTime>,
    pub updated_at: Option<DateTime>,
    pub rotated_at: Option<DateTime>,
    pub enabled_channels: Vec<i64>,
}

/// Bot admission status in one channel.
#[derive(Debug, Clone)]
pub struct BotE2eeChannelStatus {
    pub gid: i64,
    pub enabled: bool,
    pub credential_published: bool,
    pub key_package_published: bool,
}

/// The operator master key from the contents of its key file (`None` when
/// the file is missing): the base64 text must decode to exactly 32 bytes.
pub fn decode_master_key(raw: Option<&str>) -> (r: Result<[u8; 32], BotE2eeError>)
    ensures
        match raw {
            None => r matches Err(BotE2eeError::MissingMasterKey),
            Some(t) => match base64_decoded(t@) {
                Some(k) => if k.len() == 32 {
                    r matches Ok(key) && key@ == k
                } else {
                    r matches Err(BotE2eeError::InvalidMasterKey)
                },
                None => r matches Err(BotE2eeError::InvalidMasterKey),
            },
        },
{
    let text = match raw {
        Some(t) => t,
        None => return Err(BotE2eeError::MissingMasterKey),
    };
    let decoded = match b64_decode(text) {
        Ok(b) => b,
        Err(_) => return Err(BotE2eeError::InvalidMasterKey),
    };
    if decoded.len() != 32 {
        return Err(BotE2eeError::InvalidMasterKey);
    }
    Ok(to_array32(decoded.as_slice()))
}

/// Seal key material under the master key with the given nonce (no
/// associated data).
pub fn seal_with_nonce(master_key: &[u8; 32], plaintext: &[u8], nonce: [u8; 12]) -> (r: Result<([u8; 12], Vec<u8>), BotE2eeError>)
    ensures
        r is Ok <==> plaintext@.len() <= 0x10_0000_0000,
        r matches Ok((n, ct)) ==> n == nonce
            && ct@ == aes_gcm_sealed(master_key@, nonce@, Seq::empty(), plaintext@)
            && aes_gcm_opened(master_key@, nonce@, Seq::empty(), ct@) == Some(plaintext@),
        r matches Err(e) ==> (e matches BotE2eeError::Crypto(m) && m@ == "vault seal failed"@),
{
    let empty: [u8; 0] = [];
    assert(empty@ =~= Seq::<u8>::empty());
    match aes_gcm_seal(master_key, &nonce, empty.as_slice(), plaintext) {
        Some(ct) => Ok((nonce, ct)),
        None => Err(BotE2eeError::Crypto("vault seal failed".to_owned())),
    }
}

/// Seal key material under the master key with a fresh random nonce.
pub fn seal(master_key: &[u8; 32], plaintext: &[u8]) -> (r: Result<([u8; 12], Vec<u8>), BotE2eeError>)
    ensures
        r is Ok <==> plaintext@.len() <= 0x10_0000_0000,
        r matches Ok((n, ct)) ==> aes_gcm_opened(master_key@, n@, Seq::empty(), ct@) == Some(plaintext@),
{
    let bytes = random_bytes(12);
    seal_with_nonce(master_key, plaintext, to_array12(bytes.as_slice()))
}

/// Open key material sealed under the master key.
pub fn open(master_key: &[u8; 32], nonce: &[u8], ciphertext: &[u8]) -> (r: Result<Vec<u8>, BotE2eeError>)
    ensures
        nonce@.len() != 12 ==> (r matches Err(BotE2eeError::Crypto(m)) && m@ == "vault nonce length"@),
        nonce@.len() == 12 ==> match aes_gcm_opened(master_key@, nonce@, Seq::empty(), ciphertext@) {
            Some(p) => r matches Ok(v) && v@ == p,
            None => r matches Err(BotE2eeError::VaultDecryptFailed),
        },
{
    if nonce.len() != 12 {
        return Err(BotE2eeError::Crypto("vault nonce length".to_owned()));
    }
    let n = to_array12(nonce);
    let empty: [u8; 0] = [];
    assert(empty@ =~= Seq::<u8>::empty());
    match aes_gcm_open(master_key, &n, empty.as_slice(), ciphertext) {
        Some(p) => Ok(p),
        None => Err(BotE2eeError::VaultDecryptFailed),
    }
}

/// Key id of the bot's signed prekey.
pub const BOT_KEY_ID: u32 = 1;

/// A device that can receive deferred messages from a bot.
#[derive(Clone)]
pub struct UsableDevice {
    pub uid: i64,
    pub device_id: String,
    pub key_version: i64,
    pub identity: IdentityPublic,
    pub signed_prekey: SignedPreKeyPublic,
}

/// The text is non-empty after trimming ASCII and Unicode white space.
pub open spec fn present(t: Option<String>) -> bool {
    t matches Some(s) && crate::bytes::trimmed_text(s@).len() > 0
}

/// A published device is usable when it has a signed prekey and signature
/// (non-blank), its identity key text parsed as an identity (`identity`),
/// and the prekey signature verifies.
pub fn to_usable_device(
    uid: i64,
    device_id: String,
    key_version: i64,
    identity: Option<IdentityPublic>,
    signed_prekey_pub: Option<String>,
    signed_prekey_sig: Option<String>,
) -> (r: Option<UsableDevice>)
    ensures
        r is Some <==> present(signed_prekey_pub) && present(signed_prekey_sig) && identity is Some
            && prekey_signed(identity.unwrap(), SignedPreKeyPublic {
                key_id: BOT_KEY_ID,
                dh_pub_b64: signed_prekey_pub.unwrap(),
                signature_b64: signed_prekey_sig.unwrap(),
            }),
        r matches Some(d) ==> d.uid == uid && d.device_id@ == device_id@ && d.key_version == key_version
            && d.signed_prekey.key_id == BOT_KEY_ID,
{
    let spk_pub = match signed_prekey_pub {
        Some(s) => if crate::bytes::trim_text(s.as_str()).as_str().is_empty() { return None } else { s },
        None => return None,
    };
    let spk_sig = match signed_prekey_sig {
        Some(s) => if crate::bytes::trim_text(s.as_str()).as_str().is_empty() { return None } else { s },
        None => return None,
    };
    let identity = match identity {
        Some(i) => i,
        None => return None,
    };
    let signed_prekey = SignedPreKeyPublic { key_id: BOT_KEY_ID, dh_pub_b64: spk_pub, signature_b64: spk_sig };
    if verify_signed_prekey(&identity, &signed_prekey).is_err() {
        return None;
    }
    Some(UsableDevice { uid, device_id, key_version, identity, signed_prekey })
}

} // verus!

verus! {

/// Number of one-time prekeys generated per batch.
pub const OTP_BATCH_SIZE: u32 = 20;

/// One one-time prekey secret.
#[derive(Clone)]
pub struct OtpSecret {
    pub key_id: u32,
    pub secret: [u8; 32],
}

/// The bot's private key material (sealed under the master key at rest).
pub struct BotSecretMaterial {
    pub identity_x25519: [u8; 32],
    pub identity_ed25519: [u8; 32],
    pub signed_prekey_secret: [u8; 32],
    pub one_time_prekeys: Vec<OtpSecret>,
    /// Reserved seed of the bot's MLS credential.
    pub mls_seed: [u8; 32],
}

/// Freshly generated material with its public parts.
pub struct GeneratedMaterial {
    pub secret: BotSecretMaterial,
    pub identity_public: IdentityPublic,
    pub signed_prekey_public: SignedPreKeyPublic,
    pub otp_publics: Vec<(u32, String)>,
}

/// One-time prekeys `1..=n` from the given secrets, with their public
/// keys in base64.
fn one_time_prekeys(identity: &crate::identity::IdentitySecret, secrets: &Vec<[u8; 32]>) -> (r: (Vec<OtpSecret>, Vec<(u32, String)>))
    requires
        secrets@.len() <= OTP_BATCH_SIZE,
    ensures
        r.0@.len() == secrets@.len(),
        r.1@.len() == secrets@.len(),
        forall|i: int| 0 <= i < secrets@.len() ==> {
            &&& (#[trigger] r.0@[i]).key_id == i + 1
            &&& r.0@[i].secret == secrets@[i]
            &&& r.1@[i].0 == i + 1
            &&& r.1@[i].1@ == crate::primitives::base64_of(crate::primitives::x25519_public_key(secrets@[i]@))
        },
{
    let mut otp_secrets: Vec<OtpSecret> = Vec::new();
    let mut otp_publics: Vec<(u32, String)> = Vec::new();
    let mut i: usize = 0;
    while i < secrets.len()
        invariant
            i <= secrets@.len(),
            secrets@.len() <= OTP_BATCH_SIZE,
            otp_secrets@.len() == i,
            otp_publics@.len() == i,
            forall|j: int| 0 <= j < i ==> {
                &&& (#[trigger] otp_secrets@[j]).key_id == j + 1
                &&& otp_secrets@[j].secret == secrets@[j]
                &&& otp_publics@[j].0 == j + 1
                &&& otp_publics@[j].1@ == crate::primitives::base64_of(crate::primitives::x25519_public_key(secrets@[j]@))
            },
        decreases secrets@.len() - i,
    {
        let key_id = (i + 1) as u32;
        let (otk_secret, otk_public) = identity.signed_prekey_from_secret(key_id, secrets[i]);
        otp_secrets.push(OtpSecret { key_id, secret: otk_secret.secret });
        otp_publics.push((key_id, otk_public.dh_pub_b64));
        i = i + 1;
    }
    (otp_secrets, otp_publics)
}

/// `spk` publishes the signed prekey secret `secret`: its public key, and
/// the Ed25519 signature over it by the identity signing secret `ed`.
pub open spec fn spk_published(ed: Seq<u8>, secret: Seq<u8>, spk: SignedPreKeyPublic) -> bool {
    &&& spk.dh_pub_b64@ == crate::primitives::base64_of(crate::primitives::x25519_public_key(secret))
    &&& spk.signature_b64@ == crate::primitives::base64_of(
        crate::primitives::ed25519_signature(ed, crate::primitives::x25519_public_key(secret)))
}

/// The published one-time prekeys are numbered from 1 and are the public
/// keys of the one-time secrets of `m`, in order.
pub open spec fn otps_published(m: BotSecretMaterial, publics: Seq<(u32, String)>) -> bool {
    &&& publics.len() == m.one_time_prekeys@.len()
    &&& forall|i: int| 0 <= i < publics.len() ==> {
        &&& (#[trigger] publics[i]).0 == i + 1
        &&& m.one_time_prekeys@[i].key_id == i + 1
        &&& publics[i].1@ == crate::primitives::base64_of(crate::primitives::x25519_public_key(m.one_time_prekeys@[i].secret@))
    }
}

/// Bot key material from the given secrets: the identity, the signed
/// prekey (key id 1), one-time prekeys numbered from 1, and the MLS seed.
pub fn material_from_secrets(
    x25519: [u8; 32],
    ed25519: [u8; 32],
    signed_prekey: [u8; 32],
    one_time: &Vec<[u8; 32]>,
    mls_seed: [u8; 32],
) -> (g: GeneratedMaterial)
    requires
        one_time@.len() <= OTP_BATCH_SIZE,
    ensures
        g.secret.identity_x25519 == x25519,
        g.secret.identity_ed25519 == ed25519,
        g.secret.signed_prekey_secret == signed_prekey,
        g.secret.mls_seed == mls_seed,
        g.secret.one_time_prekeys@.len() == one_time@.len(),
        crate::identity::identity_public_of(x25519@, ed25519@, g.identity_public),
        g.signed_prekey_public.key_id == BOT_KEY_ID,
        spk_published(ed25519@, signed_prekey@, g.signed_prekey_public),
        g.otp_publics@.len() == one_time@.len(),
        forall|i: int| 0 <= i < one_time@.len() ==> {
            &&& (#[trigger] g.secret.one_time_prekeys@[i]).key_id == i + 1
            &&& g.secret.one_time_prekeys@[i].secret == one_time@[i]
            &&& g.otp_publics@[i].0 == i + 1
            &&& g.otp_publics@[i].1@ == crate::primitives::base64_of(crate::primitives::x25519_public_key(one_time@[i]@))
        },
        otps_published(g.secret, g.otp_publics@),
{
    let (identity_secret, identity_public) = crate::identity::IdentitySecret::from_secrets(x25519, ed25519);
    let (spk_secret, spk_public) = identity_secret.signed_prekey_from_secret(BOT_KEY_ID, signed_prekey);
    let (otp_secrets, otp_publics) = one_time_prekeys(&identity_secret, one_time);
    assert forall|i: int| 0 <= i < otp_publics@.len() implies {
        &&& (#[trigger] otp_publics@[i]).0 == i + 1
        &&& otp_secrets@[i].key_id == i + 1
        &&& otp_publics@[i].1@ == crate::primitives::base64_of(crate::primitives::x25519_public_key(otp_secrets@[i].secret@))
    } by {
        assert(otp_secrets@[i].key_id == i + 1);
    }
    GeneratedMaterial {
        secret: BotSecretMaterial {
            identity_x25519: identity_secret.x25519,
            identity_ed25519: identity_secret.ed25519,
            signed_prekey_secret: spk_secret.secret,
            one_time_prekeys: otp_secrets,
            mls_seed,
        },
        identity_public,
        signed_prekey_public: spk_public,
        otp_publics,
    }
}

/// Fresh bot key material with every secret drawn from the OS RNG.
pub fn generate_material() -> (r: Result<GeneratedMaterial, BotE2eeError>)
    ensures
        r matches Ok(g) && g.secret.one_time_prekeys@.len() == OTP_BATCH_SIZE
            && g.otp_publics@.len() == OTP_BATCH_SIZE && g.signed_prekey_public.key_id == BOT_KEY_ID
            && crate::identity::identity_public_of(g.secret.identity_x25519@, g.secret.identity_ed25519@, g.identity_public)
            && spk_published(g.secret.identity_ed25519@, g.secret.signed_prekey_secret@, g.signed_prekey_public)
            && otps_published(g.secret, g.otp_publics@),
{
    let x = random_bytes(32);
    let ed = random_bytes(32);
    let spk = random_bytes(32);
    let mut otks: Vec<[u8; 32]> = Vec::new();
    let mut i: u32 = 0;
    while i < OTP_BATCH_SIZE
        invariant
            i <= OTP_BATCH_SIZE,
            otks@.len() == i,
        decreases OTP_BATCH_SIZE - i,
    {
        let b = random_bytes(32);
        otks.push(to_array32(b.as_slice()));
        i = i + 1;
    }
    let seed = random_bytes(32);
    Ok(material_from_secrets(to_array32(x.as_slice()), to_array32(ed.as_slice()), to_array32(spk.as_slice()), &otks,
        to_array32(seed.as_slice())))
}

/// Key version after a rotation or rebuild.
pub fn next_key_version(current: i64) -> (v: i64)
    requires
        current < i64::MAX,
    ensures
        v == current + 1,
{
    current + 1
}

} // verus!

verus! {

/// Material after a rotation: the same identity and MLS seed, a new signed
/// prekey, and a fresh batch of one-time prekeys numbered from 1; with the
/// new public signed prekey and one-time prekeys.
pub fn rotated_material(
    material: &BotSecretMaterial,
    signed_prekey: [u8; 32],
    one_time: &Vec<[u8; 32]>,
) -> (r: (BotSecretMaterial, SignedPreKeyPublic, Vec<(u32, String)>))
    requires
        one_time@.len() <= OTP_BATCH_SIZE,
    ensures
        r.0.identity_x25519 == material.identity_x25519,
        r.0.identity_ed25519 == material.identity_ed25519,
        r.0.mls_seed == material.mls_seed,
        r.0.signed_prekey_secret == signed_prekey,
        r.0.one_time_prekeys@.len() == one_time@.len(),
        r.1.key_id == BOT_KEY_ID,
        spk_published(material.identity_ed25519@, signed_prekey@, r.1),
        r.2@.len() == one_time@.len(),
        forall|i: int| 0 <= i < one_time@.len() ==> {
            &&& (#[trigger] r.0.one_time_prekeys@[i]).key_id == i + 1
            &&& r.0.one_time_prekeys@[i].secret == one_time@[i]
            &&& r.2@[i].0 == i + 1
        },
        otps_published(r.0, r.2@),
{
    let g = material_from_secrets(material.identity_x25519, material.identity_ed25519, signed_prekey, one_time, material.mls_seed);
    (g.secret, g.signed_prekey_public, g.otp_publics)
}

/// Rotate the bot's prekeys with secrets drawn from the OS RNG: the
/// identity and MLS seed stay, the signed prekey and the whole one-time
/// batch are replaced.
pub fn rotate_material(material: &BotSecretMaterial) -> (r: (BotSecretMaterial, SignedPreKeyPublic, Vec<(u32, String)>))
    ensures
        r.0.identity_x25519 == material.identity_x25519,
        r.0.identity_ed25519 == material.identity_ed25519,
        r.0.mls_seed == material.mls_seed,
        r.0.one_time_prekeys@.len() == OTP_BATCH_SIZE,
        r.1.key_id == BOT_KEY_ID,
        r.2@.len() == OTP_BATCH_SIZE,
        forall|i: int| 0 <= i < OTP_BATCH_SIZE ==> (#[trigger] r.0.one_time_prekeys@[i]).key_id == i + 1 && r.2@[i].0 == i + 1,
        spk_published(material.identity_ed25519@, r.0.signed_prekey_secret@, r.1),
        otps_published(r.0, r.2@),
{
    let spk = random_bytes(32);
    let mut otks: Vec<[u8; 32]> = Vec::new();
    let mut i: u32 = 0;
    while i < OTP_BATCH_SIZE
        invariant
            i <= OTP_BATCH_SIZE,
            otks@.len() == i,
        decreases OTP_BATCH_SIZE - i,
    {
        let b = random_bytes(32);
        otks.push(to_array32(b.as_slice()));
        i = i + 1;
    }
    rotated_material(material, to_array32(spk.as_slice()), &otks)
}

/// Index of the first one-time prekey with `key_id`, if any.
pub open spec fn otp_index(otps: Seq<OtpSecret>, key_id: u32) -> Option<int> {
    if exists|i: int| 0 <= i < otps.len() && (#[trigger] otps[i]).key_id == key_id {
        Some(choose|i: int| 0 <= i < otps.len() && (#[trigger] otps[i]).key_id == key_id
            && forall|j: int| 0 <= j < i ==> (#[trigger] otps[j]).key_id != key_id)
    } else {
        None
    }
}

/// Take the one-time prekey secret with `key_id` out of the material (it
/// can serve only once).
pub fn take_one_time_prekey(material: &mut BotSecretMaterial, key_id: u32) -> (r: Result<[u8; 32], BotE2eeError>)
    ensures
        final(material).identity_x25519 == old(material).identity_x25519,
        final(material).identity_ed25519 == old(material).identity_ed25519,
        final(material).signed_prekey_secret == old(material).signed_prekey_secret,
        final(material).mls_seed == old(material).mls_seed,
        match otp_index(old(material).one_time_prekeys@, key_id) {
            Some(i) => r matches Ok(s) && s == old(material).one_time_prekeys@[i].secret
                && final(material).one_time_prekeys@ == old(material).one_time_prekeys@.remove(i),
            None => r matches Err(BotE2eeError::OneTimePrekeyUnavailable)
                && final(material).one_time_prekeys@ == old(material).one_time_prekeys@,
        },
{
    let mut i: usize = 0;
    while i < material.one_time_prekeys.len()
        invariant
            i <= material.one_time_prekeys@.len(),
            material.one_time_prekeys@ == old(material).one_time_prekeys@,
            material.identity_x25519 == old(material).identity_x25519,
            material.identity_ed25519 == old(material).identity_ed25519,
            material.signed_prekey_secret == old(material).signed_prekey_secret,
            material.mls_seed == old(material).mls_seed,
            forall|j: int| 0 <= j < i ==> (#[trigger] material.one_time_prekeys@[j]).key_id != key_id,
        decreases material.one_time_prekeys@.len() - i,
    {
        if material.one_time_prekeys[i].key_id == key_id {
            proof {
                let otps = old(material).one_time_prekeys@;
                assert(exists|k: int| 0 <= k < otps.len() && (#[trigger] otps[k]).key_id == key_id);
                let c = choose|k: int| 0 <= k < otps.len() && (#[trigger] otps[k]).key_id == key_id
                    && forall|j: int| 0 <= j < k ==> (#[trigger] otps[j]).key_id != key_id;
                assert(0 <= c < otps.len() && otps[c].key_id == key_id && forall|j: int| 0 <= j < c ==> (#[trigger] otps[j]).key_id != key_id);
                if c < i {
                    assert(otps[c].key_id != key_id);
                } else if c > i {
                    assert(otps[i as int].key_id != key_id);
                }
                assert(c == i);
            }
            let taken = material.one_time_prekeys.remove(i);
            return Ok(taken.secret);
        }
        i = i + 1;
    }
    Err(BotE2eeError::OneTimePrekeyUnavailable)
}

/// The ciphertext and nonce of an inbound bot message, decoded from base64.
pub fn decode_inbound_wire(ciphertext_b64: &str, nonce_b64: &str) -> (r: Result<(Vec<u8>, [u8; 12]), BotE2eeError>)
    ensures
        match base64_decoded(ciphertext_b64@) {
            None => r matches Err(BotE2eeError::Crypto(m)) && m@ == "bad ciphertext_b64"@,
            Some(ct) => match base64_decoded(nonce_b64@) {
                None => r matches Err(BotE2eeError::Crypto(m)) && m@ == "bad nonce_b64"@,
                Some(n) => if n.len() == 12 {
                    r matches Ok((c, nonce)) && c@ == ct && nonce@ == n
                } else {
                    r matches Err(BotE2eeError::Crypto(m)) && m@ == "bad nonce length"@
                },
            },
        },
{
    let ciphertext = match b64_decode(ciphertext_b64) {
        Ok(c) => c,
        Err(_) => return Err(BotE2eeError::Crypto("bad ciphertext_b64".to_owned())),
    };
    let nonce = match b64_decode(nonce_b64) {
        Ok(n) => n,
        Err(_) => return Err(BotE2eeError::Crypto("bad nonce_b64".to_owned())),
    };
    if nonce.len() != 12 {
        return Err(BotE2eeError::Crypto("bad nonce length".to_owned()));
    }
    Ok((ciphertext, to_array12(nonce.as_slice())))
}

/// The vault error for a failed crypto-core operation.
pub fn crypto_error(e: crate::error::E2eError) -> (b: BotE2eeError)
    ensures
        b == BotE2eeError::Crypto(b->Crypto_0) && b->Crypto_0@ == crate::error::error_message(e),
{
    BotE2eeError::Crypto(e.to_string())
}

/// The recipient secrets the bot uses for an envelope: its identity and
/// signed prekey, and the one-time prekey the envelope names, if the
/// material holds it (`None` when it names one the material lacks).
pub open spec fn inbound_local(m: BotSecretMaterial, envelope: crate::deferred::DeferredEnvelope) -> Option<crate::deferred::DeferredLocalIdentity> {
    match envelope.x3dh_initial.used_one_time_prekey_id {
        Some(id) => match otp_index(m.one_time_prekeys@, id) {
            Some(i) => Some(crate::deferred::DeferredLocalIdentity {
                ik_secret: m.identity_x25519,
                spk_secret: m.signed_prekey_secret,
                otk_secret: Some(m.one_time_prekeys@[i].secret),
            }),
            None => None,
        },
        None => Some(crate::deferred::DeferredLocalIdentity {
            ik_secret: m.identity_x25519,
            spk_secret: m.signed_prekey_secret,
            otk_secret: None,
        }),
    }
}

/// No key id occurs twice among the one-time prekeys.
pub open spec fn otp_ids_distinct(otps: Seq<OtpSecret>) -> bool {
    forall|i: int, j: int| 0 <= i < j < otps.len() ==> (#[trigger] otps[i]).key_id != (#[trigger] otps[j]).key_id
}

/// A one-time prekey serves one inbound envelope only: once opening an
/// envelope that names it has taken it out of material whose key ids are
/// distinct, the material left holds no prekey under that id, so the same
/// envelope (or any other naming it) finds no local identity and is refused
/// with `OneTimePrekeyUnavailable`.
pub proof fn law_one_time_prekey_single_use(
    before: BotSecretMaterial,
    after: BotSecretMaterial,
    envelope: crate::deferred::DeferredEnvelope,
    key_id: u32,
)
    requires
        otp_ids_distinct(before.one_time_prekeys@),
        envelope.x3dh_initial.used_one_time_prekey_id == Some(key_id),
        otp_index(before.one_time_prekeys@, key_id) is Some,
        after.one_time_prekeys@ == before.one_time_prekeys@.remove(otp_index(before.one_time_prekeys@, key_id).unwrap()),
    ensures
        otp_index(after.one_time_prekeys@, key_id) is None,
        inbound_local(after, envelope) is None,
{
    let otps = before.one_time_prekeys@;
    let w = choose|k: int| 0 <= k < otps.len() && (#[trigger] otps[k]).key_id == key_id;
    assert(forall|j: int| 0 <= j < w ==> (#[trigger] otps[j]).key_id != key_id);
    let i = otp_index(otps, key_id).unwrap();
    assert(0 <= i < otps.len() && otps[i].key_id == key_id);
    let rest = after.one_time_prekeys@;
    assert forall|k: int| 0 <= k < rest.len() implies (#[trigger] rest[k]).key_id != key_id by {
        if k < i {
            assert(rest[k] == otps[k]);
        } else {
            assert(rest[k] == otps[k + 1]);
        }
    }
}

/// Open an inbound deferred message addressed to the bot: take the
/// one-time prekey the envelope names out of the material, unwrap the
/// content key, check the metadata commitment and decrypt the body.
pub fn open_inbound_envelope(
    material: &mut BotSecretMaterial,
    envelope: &crate::deferred::DeferredEnvelope,
    ciphertext: &[u8],
    nonce: &[u8; 12],
    canonical_metadata: &[u8],
) -> (r: Result<Vec<u8>, BotE2eeError>)
    ensures
        final(material).identity_x25519 == old(material).identity_x25519,
        final(material).signed_prekey_secret == old(material).signed_prekey_secret,
        match envelope.x3dh_initial.used_one_time_prekey_id {
            Some(id) => match otp_index(old(material).one_time_prekeys@, id) {
                Some(i) => final(material).one_time_prekeys@ == old(material).one_time_prekeys@.remove(i),
                None => r matches Err(BotE2eeError::OneTimePrekeyUnavailable),
            },
            None => final(material).one_time_prekeys@ == old(material).one_time_prekeys@,
        },
        match inbound_local(*old(material), *envelope) {
            None => r matches Err(BotE2eeError::OneTimePrekeyUnavailable),
            Some(local) => match crate::deferred::unwrapped_key(*envelope, local) {
                None => r matches Err(e) && e is Crypto,
                Some(k) => match aes_gcm_opened(k, nonce@, crate::primitives::sha256_of(canonical_metadata@), ciphertext@) {
                    Some(p) => r matches Ok(v) && v@ == p,
                    None => r matches Err(e) && e is Crypto,
                },
            },
        },
{
    let otk_secret = match envelope.x3dh_initial.used_one_time_prekey_id {
        Some(id) => Some(take_one_time_prekey(material, id)?),
        None => None,
    };
    let local = crate::deferred::DeferredLocalIdentity {
        ik_secret: material.identity_x25519,
        spk_secret: material.signed_prekey_secret,
        otk_secret,
    };
    let content_key = match crate::deferred::deferred_unwrap_key(envelope, &local) {
        Ok(k) => k,
        Err(e) => return Err(crypto_error(e)),
    };
    let sha256 = match crate::deferred::deferred_metadata_commitment(canonical_metadata) {
        Ok(d) => d,
        Err(e) => return Err(crypto_error(e)),
    };
    match crate::deferred::deferred_verify_metadata(canonical_metadata, &sha256) {
        Ok(true) => {},
        Ok(false) => return Err(BotE2eeError::MetadataMismatch),
        Err(e) => return Err(crypto_error(e)),
    }
    match crate::deferred::deferred_decrypt(ciphertext, &content_key, nonce, &sha256) {
        Ok(p) => Ok(p),
        Err(e) => Err(crypto_error(e)),
    }
}

/// The decrypted body as text.
pub fn inbound_text(plaintext: Vec<u8>) -> (r: Result<String, BotE2eeError>)
    ensures
        vstd::utf8::valid_utf8(plaintext@) ==> (r matches Ok(s) && s@ == vstd::utf8::decode_utf8(plaintext@)),
        !vstd::utf8::valid_utf8(plaintext@) ==> (r matches Err(BotE2eeError::Crypto(m))
            && m@ == "decrypted content is not valid utf-8"@),
{
    match crate::primitives::utf8_to_string(plaintext) {
        Ok(s) => Ok(s),
        Err(_) => Err(BotE2eeError::Crypto("decrypted content is not valid utf-8".to_owned())),
    }
}

} // verus!

verus! {

/// Claim races a device wrap may lose before it falls back to a wrap
/// without a one-time prekey.
pub const MAX_CLAIM_RETRIES: u32 = 8;

/// A peeked, not yet consumed one-time prekey of a device: its row id, key
/// id and public key.
#[derive(Clone)]
pub struct PeekedOtp {
    pub id: i64,
    pub key_id: u32,
    pub public_key: String,
}

/// The prekey bundle of a device, with the peeked one-time prekey if any.
pub open spec fn device_bundle_spec(device: UsableDevice, otp: Option<PeekedOtp>) -> crate::x3dh::PreKeyBundle {
    crate::x3dh::PreKeyBundle {
        identity: device.identity,
        signed_prekey: device.signed_prekey,
        one_time_prekey_b64: match otp { Some(o) => Some(o.public_key), None => None },
        one_time_prekey_id: match otp { Some(o) => Some(o.key_id), None => None },
    }
}

/// `a` and `b` carry the same keys and key ids (by their text).
pub open spec fn same_bundle_keys(a: crate::x3dh::PreKeyBundle, b: crate::x3dh::PreKeyBundle) -> bool {
    &&& a.identity.identity_dh_pub_b64@ == b.identity.identity_dh_pub_b64@
    &&& a.signed_prekey.dh_pub_b64@ == b.signed_prekey.dh_pub_b64@
    &&& a.signed_prekey.key_id == b.signed_prekey.key_id
    &&& a.one_time_prekey_id == b.one_time_prekey_id
    &&& a.one_time_prekey_b64 is Some == b.one_time_prekey_b64 is Some
    &&& (a.one_time_prekey_b64 is Some ==> a.one_time_prekey_b64.unwrap()@ == b.one_time_prekey_b64.unwrap()@)
}

/// An envelope wrapped for a bundle is wrapped for any bundle with the same
/// keys.
proof fn lemma_wrapped_for_same_keys(
    env: crate::deferred::DeferredEnvelope,
    a: crate::x3dh::PreKeyBundle,
    b: crate::x3dh::PreKeyBundle,
    k: Seq<u8>,
)
    requires
        same_bundle_keys(a, b),
        exists|x: Seq<u8>, ek: Seq<u8>, n: Seq<u8>| #[trigger] crate::deferred::wrapped_for(env, a, x, ek, n, k),
    ensures
        exists|x: Seq<u8>, ek: Seq<u8>, n: Seq<u8>| #[trigger] crate::deferred::wrapped_for(env, b, x, ek, n, k),
{
    let (x, ek, n) = choose|x: Seq<u8>, ek: Seq<u8>, n: Seq<u8>| #[trigger] crate::deferred::wrapped_for(env, a, x, ek, n, k);
    assert(crate::x3dh::bundle_otk(a) == crate::x3dh::bundle_otk(b));
    assert(crate::deferred::wrapped_for(env, b, x, ek, n, k));
}

/// The prekey bundle of a device, with the peeked one-time prekey if any.
pub fn device_bundle(device: &UsableDevice, otp: &Option<PeekedOtp>) -> (b: crate::x3dh::PreKeyBundle)
    ensures
        crate::x3dh::bundle_usable(b) == crate::x3dh::bundle_usable(device_bundle_spec(*device, *otp)),
        b.signed_prekey.key_id == device.signed_prekey.key_id,
        b.one_time_prekey_id == device_bundle_spec(*device, *otp).one_time_prekey_id,
        b.one_time_prekey_b64 is Some == otp is Some,
        same_bundle_keys(b, device_bundle_spec(*device, *otp)),
{
    let identity = IdentityPublic {
        identity_dh_pub_b64: device.identity.identity_dh_pub_b64.clone(),
        identity_sig_pub_b64: device.identity.identity_sig_pub_b64.clone(),
    };
    let signed_prekey = SignedPreKeyPublic {
        key_id: device.signed_prekey.key_id,
        dh_pub_b64: device.signed_prekey.dh_pub_b64.clone(),
        signature_b64: device.signed_prekey.signature_b64.clone(),
    };
    let b = crate::x3dh::PreKeyBundle {
        identity,
        signed_prekey,
        one_time_prekey_b64: match otp { Some(o) => Some(o.public_key.clone()), None => None },
        one_time_prekey_id: match otp { Some(o) => Some(o.key_id), None => None },
    };
    proof {
        let s = device_bundle_spec(*device, *otp);
        assert(b.identity.identity_dh_pub_b64@ == s.identity.identity_dh_pub_b64@);
        assert(crate::identity::prekey_signed(b.identity, b.signed_prekey) == crate::identity::prekey_signed(s.identity, s.signed_prekey));
    }
    b
}

/// What the server does next while wrapping a content key for one device.
pub enum WrapAction {
    /// Peek the device's next unconsumed one-time prekey.
    Peek,
    /// Claim (consume) the one-time prekey with this row id.
    Claim(i64),
    /// Done: the device's envelope, or none when the wrap failed.
    Finish(Option<crate::deferred::DeferredEnvelope>),
}

/// Wrapping a content key for one device: a one-time prekey is consumed
/// only after a wrap with it succeeded, and a lost claim race retries with
/// a fresh peek, up to [`MAX_CLAIM_RETRIES`] times.
pub struct DeviceWrap {
    attempts: u32,
    pending: Option<crate::deferred::DeferredEnvelope>,
}

impl DeviceWrap {
    /// Claims attempted so far.
    pub closed spec fn attempts(&self) -> nat {
        self.attempts as nat
    }

    /// A wrap succeeded and its one-time prekey awaits the claim.
    pub closed spec fn awaiting_claim(&self) -> bool {
        self.pending is Some
    }

    /// The envelope that a won claim delivers.
    pub closed spec fn pending_envelope(&self) -> crate::deferred::DeferredEnvelope {
        self.pending.unwrap()
    }

    /// The counters stay in range.
    pub closed spec fn wf(&self) -> bool {
        self.attempts <= MAX_CLAIM_RETRIES
    }

    /// A fresh wrap; the server starts with a peek.
    pub fn new() -> (w: DeviceWrap)
        ensures
            w.wf(),
            w.attempts() == 0,
            !w.awaiting_claim(),
    {
        DeviceWrap { attempts: 0, pending: None }
    }

    /// After a peek: wrap with the peeked one-time prekey. A failed wrap
    /// finishes without an envelope (nothing is consumed); a wrap without a
    /// one-time prekey finishes with its envelope; otherwise the prekey
    /// must be claimed.
    pub fn on_peek(&mut self, content_key: &[u8; 32], device: &UsableDevice, otp: Option<PeekedOtp>) -> (a: WrapAction)
        requires
            old(self).wf(),
            !old(self).awaiting_claim(),
            old(self).attempts() < MAX_CLAIM_RETRIES,
        ensures
            final(self).wf(),
            final(self).attempts() == old(self).attempts(),
            !crate::x3dh::bundle_usable(device_bundle_spec(*device, otp)) ==> a matches WrapAction::Finish(None),
            crate::x3dh::bundle_usable(device_bundle_spec(*device, otp)) ==> match otp {
                Some(o) => a == WrapAction::Claim(o.id) && final(self).awaiting_claim()
                    && final(self).pending_envelope().alg@ == crate::deferred::DEFERRED_ALG@
                    && final(self).pending_envelope().x3dh_initial.used_one_time_prekey_id == Some(o.key_id)
                    && exists|x: Seq<u8>, ek: Seq<u8>, n: Seq<u8>| #[trigger] crate::deferred::wrapped_for(
                        final(self).pending_envelope(), device_bundle_spec(*device, otp), x, ek, n, content_key@),
                None => a matches WrapAction::Finish(Some(env)) && env.x3dh_initial.used_one_time_prekey_id is None
                    && exists|x: Seq<u8>, ek: Seq<u8>, n: Seq<u8>| #[trigger] crate::deferred::wrapped_for(
                        env, device_bundle_spec(*device, otp), x, ek, n, content_key@),
            },
            a is Finish || a is Claim,
            a is Finish ==> !final(self).awaiting_claim(),
    {
        let bundle = device_bundle(device, &otp);
        let envelope = match crate::deferred::deferred_wrap_key(content_key, &bundle) {
            Ok(e) => e,
            Err(_) => return WrapAction::Finish(None),
        };
        proof {
            lemma_wrapped_for_same_keys(envelope, bundle, device_bundle_spec(*device, otp), content_key@);
        }
        match otp {
            None => WrapAction::Finish(Some(envelope)),
            Some(o) => {
                self.pending = Some(envelope);
                WrapAction::Claim(o.id)
            },
        }
    }

    /// After a claim: a won claim finishes with the pending envelope; a lost
    /// one peeks again, or after the last allowed attempt wraps without a
    /// one-time prekey.
    pub fn on_claim(&mut self, content_key: &[u8; 32], device: &UsableDevice, won: bool) -> (a: WrapAction)
        requires
            old(self).wf(),
            old(self).awaiting_claim(),
            old(self).attempts() < MAX_CLAIM_RETRIES,
        ensures
            final(self).wf(),
            !final(self).awaiting_claim(),
            won ==> a == WrapAction::Finish(Some(old(self).pending_envelope())),
            !won ==> final(self).attempts() == old(self).attempts() + 1,
            !won && old(self).attempts() + 1 < MAX_CLAIM_RETRIES ==> a is Peek,
            !won && old(self).attempts() + 1 >= MAX_CLAIM_RETRIES ==> match a {
                WrapAction::Finish(Some(env)) => crate::x3dh::bundle_usable(device_bundle_spec(*device, None))
                    && env.x3dh_initial.used_one_time_prekey_id is None
                    && exists|x: Seq<u8>, ek: Seq<u8>, n: Seq<u8>| #[trigger] crate::deferred::wrapped_for(
                        env, device_bundle_spec(*device, None), x, ek, n, content_key@),
                WrapAction::Finish(None) => !crate::x3dh::bundle_usable(device_bundle_spec(*device, None)),
                _ => false,
            },
    {
        let pending = self.pending.take();
        if won {
            return match pending {
                Some(env) => WrapAction::Finish(Some(env)),
                None => WrapAction::Finish(None),
            };
        }
        self.attempts = self.attempts + 1;
        if self.attempts < MAX_CLAIM_RETRIES {
            return WrapAction::Peek;
        }
        let bundle = device_bundle(device, &None);
        match crate::deferred::deferred_wrap_key(content_key, &bundle) {
            Ok(env) => {
                proof {
                    lemma_wrapped_for_same_keys(env, bundle, device_bundle_spec(*device, None), content_key@);
                }
                WrapAction::Finish(Some(env))
            },
            Err(_) => WrapAction::Finish(None),
        }
    }
}

} // verus!
