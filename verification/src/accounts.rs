//! Accounts: the data model and the decoders for the account endpoints,
//! including the paginated list envelope (explicit `has_next` flag
//! convention).

use vstd::prelude::*;

use crate::checks::{uuid_ok, uuid_parses};
use crate::json::{arr_field, bool_field, decimal_field, get_arr, get_bool, get_decimal,
    get_num, get_obj, get_opt_datetime, get_str, num_field, obj_field, opt_datetime_field,
    seq_of, str_field, vec_from_json, FromJson, JsonValue};
use crate::strutil::{clone_opt, int_token_value, opt_view, parse_int_in, str_eq};

verus! {

/// Possible types for the service's accounts.
#[derive(Debug, PartialEq, Eq, Structural, Clone, Copy)]
pub enum AccountType {
    AccountTypeUnspecified,
    AccountTypeCrypto,
    AccountTypeFiat,
    AccountTypeVault,
}

impl AccountType {
    /// The wire name of this value.
    pub open spec fn wire_spec(self) -> Seq<char> {
        match self {
            AccountType::AccountTypeUnspecified => "ACCOUNT_TYPE_UNSPECIFIED"@,
            AccountType::AccountTypeCrypto => "ACCOUNT_TYPE_CRYPTO"@,
            AccountType::AccountTypeFiat => "ACCOUNT_TYPE_FIAT"@,
            AccountType::AccountTypeVault => "ACCOUNT_TYPE_VAULT"@,
        }
    }

    /// Renders this value as its wire name.
    pub fn wire_name(&self) -> (r: &'static str)
        ensures
            r@ == self.wire_spec(),
    {
        match self {
            AccountType::AccountTypeUnspecified => "ACCOUNT_TYPE_UNSPECIFIED",
            AccountType::AccountTypeCrypto => "ACCOUNT_TYPE_CRYPTO",
            AccountType::AccountTypeFiat => "ACCOUNT_TYPE_FIAT",
            AccountType::AccountTypeVault => "ACCOUNT_TYPE_VAULT",
        }
    }

    /// The value a wire name stands for; `None` for an unknown name.
    pub open spec fn from_wire_spec(s: Seq<char>) -> Option<AccountType> {
        if s == "ACCOUNT_TYPE_UNSPECIFIED"@ {
            Some(AccountType::AccountTypeUnspecified)
        } else if s == "ACCOUNT_TYPE_CRYPTO"@ {
            Some(AccountType::AccountTypeCrypto)
        } else if s == "ACCOUNT_TYPE_FIAT"@ {
            Some(AccountType::AccountTypeFiat)
        } else if s == "ACCOUNT_TYPE_VAULT"@ {
            Some(AccountType::AccountTypeVault)
        } else {
            None
        }
    }

    /// Reads a wire name.
    pub fn from_wire(s: &str) -> (r: Option<AccountType>)
        ensures
            r == Self::from_wire_spec(s@),
    {
        if str_eq(s, "ACCOUNT_TYPE_UNSPECIFIED") {
            Some(AccountType::AccountTypeUnspecified)
        } else if str_eq(s, "ACCOUNT_TYPE_CRYPTO") {
            Some(AccountType::AccountTypeCrypto)
        } else if str_eq(s, "ACCOUNT_TYPE_FIAT") {
            Some(AccountType::AccountTypeFiat)
        } else if str_eq(s, "ACCOUNT_TYPE_VAULT") {
            Some(AccountType::AccountTypeVault)
        } else {
            None
        }
    }
}

/// A balance: an arbitrary-precision decimal amount, carried as its
/// decimal text, and its currency.
#[derive(Debug, PartialEq)]
pub struct Balance {
    /// The amount as decimal text; the number of decimals is currency
    /// dependent and arbitrary, so no machine float would do.
    pub value: String,
    pub currency: String,
}

/// The mathematical content of a [`Balance`].
pub struct BalanceView {
    pub value: Seq<char>,
    pub currency: Seq<char>,
}

impl View for Balance {
    type V = BalanceView;

    open spec fn view(&self) -> BalanceView {
        BalanceView { value: self.value@, currency: self.currency@ }
    }
}

/// The balance carried by an object's members: a decimal `value` and a
/// string `currency`.
pub open spec fn balance_of_fields(fs: Seq<(String, JsonValue)>) -> Option<BalanceView> {
    match (decimal_field(fs, "value"@), str_field(fs, "currency"@)) {
        (Some(value), Some(currency)) => Some(BalanceView { value, currency }),
        _ => None,
    }
}

impl FromJson for Balance {
    open spec fn from_json_spec(j: JsonValue) -> Option<BalanceView> {
        match j {
            JsonValue::Object(fs) => balance_of_fields(fs@),
            _ => None,
        }
    }

    fn from_json(j: &JsonValue) -> (r: Option<Balance>) {
        let fs = match j {
            JsonValue::Object(fs) => fs,
            _ => { return None },
        };
        let value = match get_decimal(fs, "value") {
            Some(v) => v,
            None => { return None },
        };
        let currency = match get_str(fs, "currency") {
            Some(c) => c,
            None => { return None },
        };
        Some(Balance { value: value.clone(), currency: currency.clone() })
    }
}

/// One account, with its identifiers, flags, balances and timestamps.
/// The UUID is carried as its canonical text, timestamps as RFC3339
/// text; both are validated during decoding.
#[derive(Debug, PartialEq)]
pub struct Account {
    pub uuid: String,
    pub name: String,
    pub currency: String,
    pub available_balance: Balance,
    pub default: bool,
    pub active: bool,
    pub created_at: Option<String>,
    pub updated_at: Option<String>,
    pub deleted_at: Option<String>,
    pub account_type: AccountType,
    pub ready: bool,
    pub hold: Balance,
}

/// The mathematical content of an [`Account`].
pub struct AccountView {
    pub uuid: Seq<char>,
    pub name: Seq<char>,
    pub currency: Seq<char>,
    pub available_balance: BalanceView,
    pub default: bool,
    pub active: bool,
    pub created_at: Option<Seq<char>>,
    pub updated_at: Option<Seq<char>>,
    pub deleted_at: Option<Seq<char>>,
    pub account_type: AccountType,
    pub ready: bool,
    pub hold: BalanceView,
}

impl View for Account {
    type V = AccountView;

    open spec fn view(&self) -> AccountView {
        AccountView {
            uuid: self.uuid@,
            name: self.name@,
            currency: self.currency@,
            available_balance: self.available_balance@,
            default: self.default,
            active: self.active,
            created_at: opt_view(self.created_at),
            updated_at: opt_view(self.updated_at),
            deleted_at: opt_view(self.deleted_at),
            account_type: self.account_type,
            ready: self.ready,
            hold: self.hold@,
        }
    }
}

/// The account carried by an object's members.  The `uuid` must be a
/// UUID, the timestamps RFC3339 where present, the balances well-formed
/// and the `type` a known wire name.
pub open spec fn account_of_fields(fs: Seq<(String, JsonValue)>) -> Option<AccountView> {
    let uuid = str_field(fs, "uuid"@);
    let name = str_field(fs, "name"@);
    let currency = str_field(fs, "currency"@);
    let available_balance = obj_field(fs, "available_balance"@);
    let default = bool_field(fs, "default"@);
    let active = bool_field(fs, "active"@);
    let created_at = opt_datetime_field(fs, "created_at"@);
    let updated_at = opt_datetime_field(fs, "updated_at"@);
    let deleted_at = opt_datetime_field(fs, "deleted_at"@);
    let wire_type = str_field(fs, "type"@);
    let ready = bool_field(fs, "ready"@);
    let hold = obj_field(fs, "hold"@);
    if uuid is None || !uuid_parses(uuid->0) || name is None || currency is None
        || available_balance is None || balance_of_fields(available_balance->0) is None
        || default is None || active is None || created_at is None || updated_at is None
        || deleted_at is None || wire_type is None || AccountType::from_wire_spec(
        wire_type->0,
    ) is None || ready is None || hold is None || balance_of_fields(hold->0) is None {
        None
    } else {
        Some(
            AccountView {
                uuid: uuid->0,
                name: name->0,
                currency: currency->0,
                available_balance: balance_of_fields(available_balance->0)->0,
                default: default->0,
                active: active->0,
                created_at: created_at->0,
                updated_at: updated_at->0,
                deleted_at: deleted_at->0,
                account_type: AccountType::from_wire_spec(wire_type->0)->0,
                ready: ready->0,
                hold: balance_of_fields(hold->0)->0,
            },
        )
    }
}

impl FromJson for Account {
    open spec fn from_json_spec(j: JsonValue) -> Option<AccountView> {
        match j {
            JsonValue::Object(fs) => account_of_fields(fs@),
            _ => None,
        }
    }

    fn from_json(j: &JsonValue) -> (r: Option<Account>) {
        let fs = match j {
            JsonValue::Object(fs) => fs,
            _ => { return None },
        };
        Account::from_json_fields(fs)
    }
}

impl Account {
    /// Decodes an account from an object's members.
    pub fn from_json_fields(fs: &Vec<(String, JsonValue)>) -> (r: Option<Account>)
        ensures
            match r {
                Some(a) => account_of_fields(fs@) == Some(a@),
                None => account_of_fields(fs@) is None,
            },
    {
        let uuid = match get_str(fs, "uuid") {
            Some(v) => v,
            None => { return None },
        };
        if !uuid_ok(uuid.as_str()) {
            return None;
        }
        let name = match get_str(fs, "name") {
            Some(v) => v,
            None => { return None },
        };
        let currency = match get_str(fs, "currency") {
            Some(v) => v,
            None => { return None },
        };
        let available_balance = match get_obj(fs, "available_balance") {
            Some(gs) => match Balance::from_json_fields(gs) {
                Some(b) => b,
                None => { return None },
            },
            None => { return None },
        };
        let default = match get_bool(fs, "default") {
            Some(v) => v,
            None => { return None },
        };
        let active = match get_bool(fs, "active") {
            Some(v) => v,
            None => { return None },
        };
        let created_at = match get_opt_datetime(fs, "created_at") {
            Some(v) => v,
            None => { return None },
        };
        let updated_at = match get_opt_datetime(fs, "updated_at") {
            Some(v) => v,
            None => { return None },
        };
        let deleted_at = match get_opt_datetime(fs, "deleted_at") {
            Some(v) => v,
            None => { return None },
        };
        let account_type = match get_str(fs, "type") {
            Some(v) => match AccountType::from_wire(v.as_str()) {
                Some(t) => t,
                None => { return None },
            },
            None => { return None },
        };
        let ready = match get_bool(fs, "ready") {
            Some(v) => v,
            None => { return None },
        };
        let hold = match get_obj(fs, "hold") {
            Some(gs) => match Balance::from_json_fields(gs) {
                Some(b) => b,
                None => { return None },
            },
            None => { return None },
        };
        Some(
            Account {
                uuid: uuid.clone(),
                name: name.clone(),
                currency: currency.clone(),
                available_balance,
                default,
                active,
                created_at: clone_opt(created_at),
                updated_at: clone_opt(updated_at),
                deleted_at: clone_opt(deleted_at),
                account_type,
                ready,
                hold,
            },
        )
    }
}

impl Balance {
    /// Decodes a balance from an object's members.
    pub fn from_json_fields(gs: &Vec<(String, JsonValue)>) -> (r: Option<Balance>)
        ensures
            match r {
                Some(b) => balance_of_fields(gs@) == Some(b@),
                None => balance_of_fields(gs@) is None,
            },
    {
        let value = match get_decimal(gs, "value") {
            Some(v) => v,
            None => { return None },
        };
        let currency = match get_str(gs, "currency") {
            Some(c) => c,
            None => { return None },
        };
        Some(Balance { value: value.clone(), currency: currency.clone() })
    }
}

/// The envelope of the paginated account listing: the batch, the
/// explicit continuation flag, the cursor and the batch size.
#[derive(Debug, PartialEq)]
pub struct AccountsResponse {
    pub accounts: Vec<Account>,
    pub has_next: bool,
    pub cursor: String,
    pub size: i32,
}

/// The mathematical content of an [`AccountsResponse`].
pub struct AccountsResponseView {
    pub accounts: Seq<AccountView>,
    pub has_next: bool,
    pub cursor: Seq<char>,
    pub size: int,
}

impl View for AccountsResponse {
    type V = AccountsResponseView;

    open spec fn view(&self) -> AccountsResponseView {
        AccountsResponseView {
            accounts: self.accounts@.map_values(|a: Account| a@),
            has_next: self.has_next,
            cursor: self.cursor@,
            size: self.size as int,
        }
    }
}

impl FromJson for AccountsResponse {
    open spec fn from_json_spec(j: JsonValue) -> Option<AccountsResponseView> {
        match j {
            JsonValue::Object(fs) => {
                let accounts = arr_field(fs@, "accounts"@);
                let has_next = bool_field(fs@, "has_next"@);
                let cursor = str_field(fs@, "cursor"@);
                let size = num_field(fs@, "size"@);
                if accounts is None || seq_of::<Account>(accounts->0) is None || has_next is None
                    || cursor is None || size is None || int_token_value(size->0) is None
                    || int_token_value(size->0)->0 < -2147483648 || int_token_value(size->0)->0
                    > 2147483647 {
                    None
                } else {
                    Some(
                        AccountsResponseView {
                            accounts: seq_of::<Account>(accounts->0)->0,
                            has_next: has_next->0,
                            cursor: cursor->0,
                            size: int_token_value(size->0)->0,
                        },
                    )
                }
            },
            _ => None,
        }
    }

    fn from_json(j: &JsonValue) -> (r: Option<AccountsResponse>) {
        let fs = match j {
            JsonValue::Object(fs) => fs,
            _ => { return None },
        };
        let accounts = match get_arr(fs, "accounts") {
            Some(xs) => match vec_from_json::<Account>(xs) {
                Some(v) => v,
                None => { return None },
            },
            None => { return None },
        };
        let has_next = match get_bool(fs, "has_next") {
            Some(v) => v,
            None => { return None },
        };
        let cursor = match get_str(fs, "cursor") {
            Some(v) => v,
            None => { return None },
        };
        let size = match get_num(fs, "size") {
            Some(tok) => match parse_int_in(tok.as_str(), -2147483648i64, 2147483647i64) {
                Some(v) => v as i32,
                None => { return None },
            },
            None => { return None },
        };
        Some(AccountsResponse { accounts, has_next, cursor: cursor.clone(), size })
    }
}

impl AccountsResponse {
    /// Normalizes this envelope into one page of the pagination engine:
    /// the batch plus the explicit-flag continuation signal.
    pub fn into_page(self) -> (r: crate::pagination::PageData<Account>)
        ensures
            r.items == self.accounts,
            r.has_next == self.has_next,
            r.cursor == self.cursor,
    {
        crate::pagination::PageData {
            items: self.accounts,
            has_next: self.has_next,
            cursor: self.cursor,
        }
    }
}

/// The envelope of a single-account response.
#[derive(Debug, PartialEq)]
pub struct AccountResponse {
    pub account: Account,
}

/// The mathematical content of an [`AccountResponse`].
pub struct AccountResponseView {
    pub account: AccountView,
}

impl View for AccountResponse {
    type V = AccountResponseView;

    open spec fn view(&self) -> AccountResponseView {
        AccountResponseView { account: self.account@ }
    }
}

impl FromJson for AccountResponse {
    open spec fn from_json_spec(j: JsonValue) -> Option<AccountResponseView> {
        match j {
            JsonValue::Object(fs) => match obj_field(fs@, "account"@) {
                Some(gs) => match account_of_fields(gs) {
                    Some(a) => Some(AccountResponseView { account: a }),
                    None => None,
                },
                None => None,
            },
            _ => None,
        }
    }

    fn from_json(j: &JsonValue) -> (r: Option<AccountResponse>) {
        let fs = match j {
            JsonValue::Object(fs) => fs,
            _ => { return None },
        };
        let gs = match get_obj(fs, "account") {
            Some(gs) => gs,
            None => { return None },
        };
        match Account::from_json_fields(gs) {
            Some(account) => Some(AccountResponse { account }),
            None => None,
        }
    }
}

} // verus!
