//! Shell completions.

use vstd::prelude::*;
use vstd::string::*;
use crate::text::views;

verus! {

/// The shells completions can be generated for.
pub enum CompletionCommands {
    /// Generate bash completions
    Bash,
    /// Generate zsh completions
    Zsh,
    /// Generate fish completions
    Fish,
}

/// A command of the command-line interface as completion scripts describe it:
/// its name, its help line, its positional arguments, its options that take a
/// value, its flags, and its subcommands.
pub struct CommandSpec {
    pub name: String,
    pub about: String,
    pub args: Vec<String>,
    pub options: Vec<String>,
    pub flags: Vec<String>,
    pub subcommands: Vec<CommandSpec>,
}

/// The mathematical form of a command description.
#[verifier::ext_equal]
pub struct CommandTree {
    pub name: Seq<char>,
    pub about: Seq<char>,
    pub args: Seq<Seq<char>>,
    pub options: Seq<Seq<char>>,
    pub flags: Seq<Seq<char>>,
    pub subcommands: Seq<CommandTree>,
}

/// A command tree node.
pub open spec fn node(
    name: Seq<char>,
    about: Seq<char>,
    args: Seq<Seq<char>>,
    options: Seq<Seq<char>>,
    flags: Seq<Seq<char>>,
    subcommands: Seq<CommandTree>,
) -> CommandTree {
    CommandTree { name, about, args, options, flags, subcommands }
}

/// The mathematical form of a command description.
pub open spec fn command_tree(c: CommandSpec) -> CommandTree
    decreases c, 1nat,
{
    CommandTree {
        name: c.name@,
        about: c.about@,
        args: views(c.args@),
        options: views(c.options@),
        flags: views(c.flags@),
        subcommands: command_trees(c.subcommands@),
    }
}

/// The mathematical forms of a list of command descriptions.
pub open spec fn command_trees(s: Seq<CommandSpec>) -> Seq<CommandTree>
    decreases s, 0nat,
{
    if s.len() == 0 {
        Seq::empty()
    } else {
        command_trees(s.drop_last()).push(command_tree(s.last()))
    }
}

impl View for CommandSpec {
    type V = CommandTree;

    open spec fn view(&self) -> CommandTree {
        command_tree(*self)
    }
}

impl CommandSpec {
    /// Adds a positional argument.
    pub fn add_arg(&mut self, name: &str)
        ensures
            final(self)@ == (CommandTree { args: old(self)@.args.push(name@), ..old(self)@ }),
    {
        let ghost before = self.args@;
        self.args.push(String::from_str(name));
        assert(views(self.args@) =~= views(before).push(name@));
    }

    /// Adds an option that takes a value, `--name <value>`.
    pub fn add_option(&mut self, name: &str)
        ensures
            final(self)@ == (CommandTree { options: old(self)@.options.push(name@), ..old(self)@ }),
    {
        let ghost before = self.options@;
        self.options.push(String::from_str(name));
        assert(views(self.options@) =~= views(before).push(name@));
    }

    /// Adds a flag, `--name`.
    pub fn add_flag(&mut self, name: &str)
        ensures
            final(self)@ == (CommandTree { flags: old(self)@.flags.push(name@), ..old(self)@ }),
    {
        let ghost before = self.flags@;
        self.flags.push(String::from_str(name));
        assert(views(self.flags@) =~= views(before).push(name@));
    }

    /// Adds a subcommand.
    pub fn add_subcommand(&mut self, sub: CommandSpec)
        ensures
            final(self)@ == (CommandTree {
                subcommands: old(self)@.subcommands.push(sub@),
                ..old(self)@
            }),
    {
        let ghost before = self.subcommands@;
        self.subcommands.push(sub);
        assert(self.subcommands@.drop_last() =~= before);
    }
}

/// A command with no arguments, options, flags or subcommands.
pub fn command(name: &str, about: &str) -> (c: CommandSpec)
    ensures
        c@ == node(name@, about@, Seq::empty(), Seq::empty(), Seq::empty(), Seq::empty()),
{
    let c = CommandSpec {
        name: String::from_str(name),
        about: String::from_str(about),
        args: Vec::new(),
        options: Vec::new(),
        flags: Vec::new(),
        subcommands: Vec::new(),
    };
    assert(views(c.args@) =~= Seq::<Seq<char>>::empty());
    assert(views(c.options@) =~= Seq::<Seq<char>>::empty());
    assert(views(c.flags@) =~= Seq::<Seq<char>>::empty());
    assert(command_trees(c.subcommands@) =~= Seq::<CommandTree>::empty());
    c
}

/// The `auth` group of the command tree.
pub open spec fn auth_tree() -> CommandTree {
    node("auth"@, "Manage authentication"@, Seq::empty(), Seq::empty(), Seq::empty(), seq![
            node("login"@, "Interactive PKCE login"@, Seq::empty(), seq!["port"@, "scopes"@], Seq::empty(), Seq::empty()),
            node("status"@, "Show current auth status"@, Seq::empty(), Seq::empty(), Seq::empty(), Seq::empty()),
            node("refresh"@, "Force token refresh"@, Seq::empty(), Seq::empty(), Seq::empty(), Seq::empty()),
            node("logout"@, "Clear stored tokens"@, Seq::empty(), Seq::empty(), Seq::empty(), Seq::empty()),
            node("setup-m2m"@, "Configure client credentials (M2M)"@, Seq::empty(), seq!["client-id"@, "client-secret"@], Seq::empty(), Seq::empty()),
            node("scopes"@, "Manage OAuth scopes"@, Seq::empty(), Seq::empty(), Seq::empty(), seq![
                    node("add"@, "Add a scope"@, seq!["scope"@], Seq::empty(), Seq::empty(), Seq::empty()),
                    node("preset"@, "Apply a scope preset"@, seq!["name"@], Seq::empty(), Seq::empty(), Seq::empty()),
                ]),
        ])
}

fn group_auth() -> (c: CommandSpec)
    ensures
        c@ == auth_tree(),
{
    let mut g = command("auth", "Manage authentication");
    let mut c0 = command("login", "Interactive PKCE login");
    c0.add_option("port");
    c0.add_option("scopes");
    assert(c0@.options =~= auth_tree().subcommands[0].options);
    assert(c0@ == auth_tree().subcommands[0]);
    g.add_subcommand(c0);
    let c1 = command("status", "Show current auth status");
    assert(c1@ == auth_tree().subcommands[1]);
    g.add_subcommand(c1);
    let c2 = command("refresh", "Force token refresh");
    assert(c2@ == auth_tree().subcommands[2]);
    g.add_subcommand(c2);
    let c3 = command("logout", "Clear stored tokens");
    assert(c3@ == auth_tree().subcommands[3]);
    g.add_subcommand(c3);
    let mut c4 = command("setup-m2m", "Configure client credentials (M2M)");
    c4.add_option("client-id");
    c4.add_option("client-secret");
    assert(c4@.options =~= auth_tree().subcommands[4].options);
    assert(c4@ == auth_tree().subcommands[4]);
    g.add_subcommand(c4);
    let mut c5 = command("scopes", "Manage OAuth scopes");
    let mut c5_0 = command("add", "Add a scope");
    c5_0.add_arg("scope");
    assert(c5_0@.args =~= auth_tree().subcommands[5].subcommands[0].args);
    assert(c5_0@ == auth_tree().subcommands[5].subcommands[0]);
    c5.add_subcommand(c5_0);
    let mut c5_1 = command("preset", "Apply a scope preset");
    c5_1.add_arg("name");
    assert(c5_1@.args =~= auth_tree().subcommands[5].subcommands[1].args);
    assert(c5_1@ == auth_tree().subcommands[5].subcommands[1]);
    c5.add_subcommand(c5_1);
    assert(c5@.subcommands =~= auth_tree().subcommands[5].subcommands);
    assert(c5@ == auth_tree().subcommands[5]);
    g.add_subcommand(c5);
    assert(g@.subcommands =~= auth_tree().subcommands);
    assert(g@ == auth_tree());
    g
}

/// The `invoices` group of the command tree.
pub open spec fn invoices_tree() -> CommandTree {
    node("invoices"@, "Manage invoices"@, Seq::empty(), Seq::empty(), Seq::empty(), seq![
            node("list"@, "List invoices"@, Seq::empty(), seq!["status"@, "contact"@, "from"@, "to"@, "where-clause"@, "order"@], Seq::empty(), Seq::empty()),
            node("get"@, "Get a specific invoice"@, seq!["id"@], Seq::empty(), Seq::empty(), Seq::empty()),
            node("create"@, "Create an invoice"@, Seq::empty(), seq!["file"@, "contact"@, "line-item"@, "due-date"@], Seq::empty(), Seq::empty()),
            node("update"@, "Update an invoice"@, seq!["id"@], seq!["status"@, "file"@], Seq::empty(), Seq::empty()),
        ])
}

fn group_invoices() -> (c: CommandSpec)
    ensures
        c@ == invoices_tree(),
{
    let mut g = command("invoices", "Manage invoices");
    let mut c0 = command("list", "List invoices");
    c0.add_option("status");
    c0.add_option("contact");
    c0.add_option("from");
    c0.add_option("to");
    c0.add_option("where-clause");
    c0.add_option("order");
    assert(c0@.options =~= invoices_tree().subcommands[0].options);
    assert(c0@ == invoices_tree().subcommands[0]);
    g.add_subcommand(c0);
    let mut c1 = command("get", "Get a specific invoice");
    c1.add_arg("id");
    assert(c1@.args =~= invoices_tree().subcommands[1].args);
    assert(c1@ == invoices_tree().subcommands[1]);
    g.add_subcommand(c1);
    let mut c2 = command("create", "Create an invoice");
    c2.add_option("file");
    c2.add_option("contact");
    c2.add_option("line-item");
    c2.add_option("due-date");
    assert(c2@.options =~= invoices_tree().subcommands[2].options);
    assert(c2@ == invoices_tree().subcommands[2]);
    g.add_subcommand(c2);
    let mut c3 = command("update", "Update an invoice");
    c3.add_arg("id");
    c3.add_option("status");
    c3.add_option("file");
    assert(c3@.args =~= invoices_tree().subcommands[3].args);
    assert(c3@.options =~= invoices_tree().subcommands[3].options);
    assert(c3@ == invoices_tree().subcommands[3]);
    g.add_subcommand(c3);
    assert(g@.subcommands =~= invoices_tree().subcommands);
    assert(g@ == invoices_tree());
    g
}

/// The `contacts` group of the command tree.
pub open spec fn contacts_tree() -> CommandTree {
    node("contacts"@, "Manage contacts"@, Seq::empty(), Seq::empty(), Seq::empty(), seq![
            node("list"@, "List contacts"@, Seq::empty(), seq!["search"@, "where-clause"@, "order"@], Seq::empty(), Seq::empty()),
            node("get"@, "Get a specific contact"@, seq!["id"@], Seq::empty(), Seq::empty(), Seq::empty()),
            node("create"@, "Create a contact"@, Seq::empty(), seq!["name"@, "email"@, "tax-number"@, "file"@], Seq::empty(), Seq::empty()),
            node("update"@, "Update a contact"@, seq!["id"@], seq!["name"@, "email"@, "file"@], Seq::empty(), Seq::empty()),
        ])
}

fn group_contacts() -> (c: CommandSpec)
    ensures
        c@ == contacts_tree(),
{
    let mut g = command("contacts", "Manage contacts");
    let mut c0 = command("list", "List contacts");
    c0.add_option("search");
    c0.add_option("where-clause");
    c0.add_option("order");
    assert(c0@.options =~= contacts_tree().subcommands[0].options);
    assert(c0@ == contacts_tree().subcommands[0]);
    g.add_subcommand(c0);
    let mut c1 = command("get", "Get a specific contact");
    c1.add_arg("id");
    assert(c1@.args =~= contacts_tree().subcommands[1].args);
    assert(c1@ == contacts_tree().subcommands[1]);
    g.add_subcommand(c1);
    let mut c2 = command("create", "Create a contact");
    c2.add_option("name");
    c2.add_option("email");
    c2.add_option("tax-number");
    c2.add_option("file");
    assert(c2@.options =~= contacts_tree().subcommands[2].options);
    assert(c2@ == contacts_tree().subcommands[2]);
    g.add_subcommand(c2);
    let mut c3 = command("update", "Update a contact");
    c3.add_arg("id");
    c3.add_option("name");
    c3.add_option("email");
    c3.add_option("file");
    assert(c3@.args =~= contacts_tree().subcommands[3].args);
    assert(c3@.options =~= contacts_tree().subcommands[3].options);
    assert(c3@ == contacts_tree().subcommands[3]);
    g.add_subcommand(c3);
    assert(g@.subcommands =~= contacts_tree().subcommands);
    assert(g@ == contacts_tree());
    g
}

/// The `accounts` group of the command tree.
pub open spec fn accounts_tree() -> CommandTree {
    node("accounts"@, "Manage chart of accounts"@, Seq::empty(), Seq::empty(), Seq::empty(), seq![
            node("list"@, "List accounts"@, Seq::empty(), seq!["account-type"@, "class"@, "where-clause"@, "order"@], Seq::empty(), Seq::empty()),
            node("get"@, "Get a specific account"@, seq!["id"@], Seq::empty(), Seq::empty(), Seq::empty()),
            node("create"@, "Create an account"@, Seq::empty(), seq!["name"@, "code"@, "account-type"@, "description"@, "tax-type"@], Seq::empty(), Seq::empty()),
            node("archive"@, "Archive an account"@, seq!["id"@], Seq::empty(), Seq::empty(), Seq::empty()),
        ])
}

fn group_accounts() -> (c: CommandSpec)
    ensures
        c@ == accounts_tree(),
{
    let mut g = command("accounts", "Manage chart of accounts");
    let mut c0 = command("list", "List accounts");
    c0.add_option("account-type");
    c0.add_option("class");
    c0.add_option("where-clause");
    c0.add_option("order");
    assert(c0@.options =~= accounts_tree().subcommands[0].options);
    assert(c0@ == accounts_tree().subcommands[0]);
    g.add_subcommand(c0);
    let mut c1 = command("get", "Get a specific account");
    c1.add_arg("id");
    assert(c1@.args =~= accounts_tree().subcommands[1].args);
    assert(c1@ == accounts_tree().subcommands[1]);
    g.add_subcommand(c1);
    let mut c2 = command("create", "Create an account");
    c2.add_option("name");
    c2.add_option("code");
    c2.add_option("account-type");
    c2.add_option("description");
    c2.add_option("tax-type");
    assert(c2@.options =~= accounts_tree().subcommands[2].options);
    assert(c2@ == accounts_tree().subcommands[2]);
    g.add_subcommand(c2);
    let mut c3 = command("archive", "Archive an account");
    c3.add_arg("id");
    assert(c3@.args =~= accounts_tree().subcommands[3].args);
    assert(c3@ == accounts_tree().subcommands[3]);
    g.add_subcommand(c3);
    assert(g@.subcommands =~= accounts_tree().subcommands);
    assert(g@ == accounts_tree());
    g
}

/// The `payments` group of the command tree.
pub open spec fn payments_tree() -> CommandTree {
    node("payments"@, "Manage payments"@, Seq::empty(), Seq::empty(), Seq::empty(), seq![
            node("list"@, "List payments"@, Seq::empty(), seq!["invoice"@, "where-clause"@], Seq::empty(), Seq::empty()),
            node("get"@, "Get a specific payment"@, seq!["id"@], Seq::empty(), Seq::empty(), Seq::empty()),
            node("create"@, "Create a payment"@, Seq::empty(), seq!["invoice"@, "account"@, "amount"@, "date"@, "reference"@], Seq::empty(), Seq::empty()),
            node("delete"@, "Delete (reverse) a payment"@, seq!["id"@], Seq::empty(), Seq::empty(), Seq::empty()),
            node("history"@, "View payment history"@, seq!["id"@], Seq::empty(), Seq::empty(), Seq::empty()),
        ])
}

fn group_payments() -> (c: CommandSpec)
    ensures
        c@ == payments_tree(),
{
    let mut g = command("payments", "Manage payments");
    let mut c0 = command("list", "List payments");
    c0.add_option("invoice");
    c0.add_option("where-clause");
    assert(c0@.options =~= payments_tree().subcommands[0].options);
    assert(c0@ == payments_tree().subcommands[0]);
    g.add_subcommand(c0);
    let mut c1 = command("get", "Get a specific payment");
    c1.add_arg("id");
    assert(c1@.args =~= payments_tree().subcommands[1].args);
    assert(c1@ == payments_tree().subcommands[1]);
    g.add_subcommand(c1);
    let mut c2 = command("create", "Create a payment");
    c2.add_option("invoice");
    c2.add_option("account");
    c2.add_option("amount");
    c2.add_option("date");
    c2.add_option("reference");
    assert(c2@.options =~= payments_tree().subcommands[2].options);
    assert(c2@ == payments_tree().subcommands[2]);
    g.add_subcommand(c2);
    let mut c3 = command("delete", "Delete (reverse) a payment");
    c3.add_arg("id");
    assert(c3@.args =~= payments_tree().subcommands[3].args);
    assert(c3@ == payments_tree().subcommands[3]);
    g.add_subcommand(c3);
    let mut c4 = command("history", "View payment history");
    c4.add_arg("id");
    assert(c4@.args =~= payments_tree().subcommands[4].args);
    assert(c4@ == payments_tree().subcommands[4]);
    g.add_subcommand(c4);
    assert(g@.subcommands =~= payments_tree().subcommands);
    assert(g@ == payments_tree());
    g
}

/// The `items` group of the command tree.
pub open spec fn items_tree() -> CommandTree {
    node("items"@, "Manage items"@, Seq::empty(), Seq::empty(), Seq::empty(), seq![
            node("list"@, "List items"@, Seq::empty(), seq!["where-clause"@], Seq::empty(), Seq::empty()),
            node("get"@, "Get a specific item"@, seq!["id"@], Seq::empty(), Seq::empty(), Seq::empty()),
            node("create"@, "Create an item"@, Seq::empty(), seq!["code"@, "name"@, "description"@, "sale-price"@, "sale-account"@, "purchase-price"@, "purchase-account"@], Seq::empty(), Seq::empty()),
            node("update"@, "Update an item"@, seq!["id"@], seq!["name"@, "sale-price"@, "purchase-price"@], Seq::empty(), Seq::empty()),
            node("delete"@, "Delete an item"@, seq!["id"@], Seq::empty(), Seq::empty(), Seq::empty()),
            node("history"@, "View item history"@, seq!["id"@], Seq::empty(), Seq::empty(), Seq::empty()),
        ])
}

fn group_items() -> (c: CommandSpec)
    ensures
        c@ == items_tree(),
{
    let mut g = command("items", "Manage items");
    let mut c0 = command("list", "List items");
    c0.add_option("where-clause");
    assert(c0@.options =~= items_tree().subcommands[0].options);
    assert(c0@ == items_tree().subcommands[0]);
    g.add_subcommand(c0);
    let mut c1 = command("get", "Get a specific item");
    c1.add_arg("id");
    assert(c1@.args =~= items_tree().subcommands[1].args);
    assert(c1@ == items_tree().subcommands[1]);
    g.add_subcommand(c1);
    let mut c2 = command("create", "Create an item");
    c2.add_option("code");
    c2.add_option("name");
    c2.add_option("description");
    c2.add_option("sale-price");
    c2.add_option("sale-account");
    c2.add_option("purchase-price");
    c2.add_option("purchase-account");
    assert(c2@.options =~= items_tree().subcommands[2].options);
    assert(c2@ == items_tree().subcommands[2]);
    g.add_subcommand(c2);
    let mut c3 = command("update", "Update an item");
    c3.add_arg("id");
    c3.add_option("name");
    c3.add_option("sale-price");
    c3.add_option("purchase-price");
    assert(c3@.args =~= items_tree().subcommands[3].args);
    assert(c3@.options =~= items_tree().subcommands[3].options);
    assert(c3@ == items_tree().subcommands[3]);
    g.add_subcommand(c3);
    let mut c4 = command("delete", "Delete an item");
    c4.add_arg("id");
    assert(c4@.args =~= items_tree().subcommands[4].args);
    assert(c4@ == items_tree().subcommands[4]);
    g.add_subcommand(c4);
    let mut c5 = command("history", "View item history");
    c5.add_arg("id");
    assert(c5@.args =~= items_tree().subcommands[5].args);
    assert(c5@ == items_tree().subcommands[5]);
    g.add_subcommand(c5);
    assert(g@.subcommands =~= items_tree().subcommands);
    assert(g@ == items_tree());
    g
}

/// The `bank-transactions` group of the command tree.
pub open spec fn bank_transactions_tree() -> CommandTree {
    node("bank-transactions"@, "Manage bank transactions"@, Seq::empty(), Seq::empty(), Seq::empty(), seq![
            node("list"@, "List bank transactions"@, Seq::empty(), seq!["account"@, "from"@, "where-clause"@], Seq::empty(), Seq::empty()),
            node("get"@, "Get a specific bank transaction"@, seq!["id"@], Seq::empty(), Seq::empty(), Seq::empty()),
            node("create"@, "Create a bank transaction"@, Seq::empty(), seq!["file"@], Seq::empty(), Seq::empty()),
            node("delete"@, "Delete a bank transaction"@, seq!["id"@], Seq::empty(), Seq::empty(), Seq::empty()),
            node("history"@, "View bank transaction history"@, seq!["id"@], Seq::empty(), Seq::empty(), Seq::empty()),
        ])
}

fn group_bank_transactions() -> (c: CommandSpec)
    ensures
        c@ == bank_transactions_tree(),
{
    let mut g = command("bank-transactions", "Manage bank transactions");
    let mut c0 = command("list", "List bank transactions");
    c0.add_option("account");
    c0.add_option("from");
    c0.add_option("where-clause");
    assert(c0@.options =~= bank_transactions_tree().subcommands[0].options);
    assert(c0@ == bank_transactions_tree().subcommands[0]);
    g.add_subcommand(c0);
    let mut c1 = command("get", "Get a specific bank transaction");
    c1.add_arg("id");
    assert(c1@.args =~= bank_transactions_tree().subcommands[1].args);
    assert(c1@ == bank_transactions_tree().subcommands[1]);
    g.add_subcommand(c1);
    let mut c2 = command("create", "Create a bank transaction");
    c2.add_option("file");
    assert(c2@.options =~= bank_transactions_tree().subcommands[2].options);
    assert(c2@ == bank_transactions_tree().subcommands[2]);
    g.add_subcommand(c2);
    let mut c3 = command("delete", "Delete a bank transaction");
    c3.add_arg("id");
    assert(c3@.args =~= bank_transactions_tree().subcommands[3].args);
    assert(c3@ == bank_transactions_tree().subcommands[3]);
    g.add_subcommand(c3);
    let mut c4 = command("history", "View bank transaction history");
    c4.add_arg("id");
    assert(c4@.args =~= bank_transactions_tree().subcommands[4].args);
    assert(c4@ == bank_transactions_tree().subcommands[4]);
    g.add_subcommand(c4);
    assert(g@.subcommands =~= bank_transactions_tree().subcommands);
    assert(g@ == bank_transactions_tree());
    g
}

/// The `bank-transfers` group of the command tree.
pub open spec fn bank_transfers_tree() -> CommandTree {
    node("bank-transfers"@, "Manage bank transfers"@, Seq::empty(), Seq::empty(), Seq::empty(), seq![
            node("list"@, "List bank transfers"@, Seq::empty(), Seq::empty(), Seq::empty(), Seq::empty()),
            node("get"@, "Get a specific bank transfer"@, seq!["id"@], Seq::empty(), Seq::empty(), Seq::empty()),
            node("create"@, "Create a bank transfer"@, Seq::empty(), seq!["from-account"@, "to-account"@, "amount"@], Seq::empty(), Seq::empty()),
        ])
}

fn group_bank_transfers() -> (c: CommandSpec)
    ensures
        c@ == bank_transfers_tree(),
{
    let mut g = command("bank-transfers", "Manage bank transfers");
    let c0 = command("list", "List bank transfers");
    assert(c0@ == bank_transfers_tree().subcommands[0]);
    g.add_subcommand(c0);
    let mut c1 = command("get", "Get a specific bank transfer");
    c1.add_arg("id");
    assert(c1@.args =~= bank_transfers_tree().subcommands[1].args);
    assert(c1@ == bank_transfers_tree().subcommands[1]);
    g.add_subcommand(c1);
    let mut c2 = command("create", "Create a bank transfer");
    c2.add_option("from-account");
    c2.add_option("to-account");
    c2.add_option("amount");
    assert(c2@.options =~= bank_transfers_tree().subcommands[2].options);
    assert(c2@ == bank_transfers_tree().subcommands[2]);
    g.add_subcommand(c2);
    assert(g@.subcommands =~= bank_transfers_tree().subcommands);
    assert(g@ == bank_transfers_tree());
    g
}

/// The `credit-notes` group of the command tree.
pub open spec fn credit_notes_tree() -> CommandTree {
    node("credit-notes"@, "Manage credit notes"@, Seq::empty(), Seq::empty(), Seq::empty(), seq![
            node("list"@, "List credit notes"@, Seq::empty(), seq!["status"@, "where-clause"@], Seq::empty(), Seq::empty()),
            node("get"@, "Get a specific credit note"@, seq!["id"@], Seq::empty(), Seq::empty(), Seq::empty()),
            node("create"@, "Create a credit note"@, Seq::empty(), seq!["file"@], Seq::empty(), Seq::empty()),
            node("allocate"@, "Allocate a credit note to an invoice"@, seq!["id"@], seq!["invoice"@, "amount"@], Seq::empty(), Seq::empty()),
            node("history"@, "View credit note history"@, seq!["id"@], Seq::empty(), Seq::empty(), Seq::empty()),
        ])
}

fn group_credit_notes() -> (c: CommandSpec)
    ensures
        c@ == credit_notes_tree(),
{
    let mut g = command("credit-notes", "Manage credit notes");
    let mut c0 = command("list", "List credit notes");
    c0.add_option("status");
    c0.add_option("where-clause");
    assert(c0@.options =~= credit_notes_tree().subcommands[0].options);
    assert(c0@ == credit_notes_tree().subcommands[0]);
    g.add_subcommand(c0);
    let mut c1 = command("get", "Get a specific credit note");
    c1.add_arg("id");
    assert(c1@.args =~= credit_notes_tree().subcommands[1].args);
    assert(c1@ == credit_notes_tree().subcommands[1]);
    g.add_subcommand(c1);
    let mut c2 = command("create", "Create a credit note");
    c2.add_option("file");
    assert(c2@.options =~= credit_notes_tree().subcommands[2].options);
    assert(c2@ == credit_notes_tree().subcommands[2]);
    g.add_subcommand(c2);
    let mut c3 = command("allocate", "Allocate a credit note to an invoice");
    c3.add_arg("id");
    c3.add_option("invoice");
    c3.add_option("amount");
    assert(c3@.args =~= credit_notes_tree().subcommands[3].args);
    assert(c3@.options =~= credit_notes_tree().subcommands[3].options);
    assert(c3@ == credit_notes_tree().subcommands[3]);
    g.add_subcommand(c3);
    let mut c4 = command("history", "View credit note history");
    c4.add_arg("id");
    assert(c4@.args =~= credit_notes_tree().subcommands[4].args);
    assert(c4@ == credit_notes_tree().subcommands[4]);
    g.add_subcommand(c4);
    assert(g@.subcommands =~= credit_notes_tree().subcommands);
    assert(g@ == credit_notes_tree());
    g
}

/// The `purchase-orders` group of the command tree.
pub open spec fn purchase_orders_tree() -> CommandTree {
    node("purchase-orders"@, "Manage purchase orders"@, Seq::empty(), Seq::empty(), Seq::empty(), seq![
            node("list"@, "List purchase orders"@, Seq::empty(), seq!["status"@, "where-clause"@], Seq::empty(), Seq::empty()),
            node("get"@, "Get a specific purchase order"@, seq!["id"@], Seq::empty(), Seq::empty(), Seq::empty()),
            node("create"@, "Create a purchase order"@, Seq::empty(), seq!["contact"@, "file"@], Seq::empty(), Seq::empty()),
            node("history"@, "View purchase order history"@, seq!["id"@], Seq::empty(), Seq::empty(), Seq::empty()),
        ])
}

fn group_purchase_orders() -> (c: CommandSpec)
    ensures
        c@ == purchase_orders_tree(),
{
    let mut g = command("purchase-orders", "Manage purchase orders");
    let mut c0 = command("list", "List purchase orders");
    c0.add_option("status");
    c0.add_option("where-clause");
    assert(c0@.options =~= purchase_orders_tree().subcommands[0].options);
    assert(c0@ == purchase_orders_tree().subcommands[0]);
    g.add_subcommand(c0);
    let mut c1 = command("get", "Get a specific purchase order");
    c1.add_arg("id");
    assert(c1@.args =~= purchase_orders_tree().subcommands[1].args);
    assert(c1@ == purchase_orders_tree().subcommands[1]);
    g.add_subcommand(c1);
    let mut c2 = command("create", "Create a purchase order");
    c2.add_option("contact");
    c2.add_option("file");
    assert(c2@.options =~= purchase_orders_tree().subcommands[2].options);
    assert(c2@ == purchase_orders_tree().subcommands[2]);
    g.add_subcommand(c2);
    let mut c3 = command("history", "View purchase order history");
    c3.add_arg("id");
    assert(c3@.args =~= purchase_orders_tree().subcommands[3].args);
    assert(c3@ == purchase_orders_tree().subcommands[3]);
    g.add_subcommand(c3);
    assert(g@.subcommands =~= purchase_orders_tree().subcommands);
    assert(g@ == purchase_orders_tree());
    g
}

/// The `quotes` group of the command tree.
pub open spec fn quotes_tree() -> CommandTree {
    node("quotes"@, "Manage quotes"@, Seq::empty(), Seq::empty(), Seq::empty(), seq![
            node("list"@, "List quotes"@, Seq::empty(), seq!["status"@, "where-clause"@], Seq::empty(), Seq::empty()),
            node("get"@, "Get a specific quote"@, seq!["id"@], Seq::empty(), Seq::empty(), Seq::empty()),
            node("create"@, "Create a quote"@, Seq::empty(), seq!["file"@], Seq::empty(), Seq::empty()),
            node("update"@, "Update a quote"@, seq!["id"@], seq!["expiry-date"@, "status"@, "file"@], Seq::empty(), Seq::empty()),
        ])
}

fn group_quotes() -> (c: CommandSpec)
    ensures
        c@ == quotes_tree(),
{
    let mut g = command("quotes", "Manage quotes");
    let mut c0 = command("list", "List quotes");
    c0.add_option("status");
    c0.add_option("where-clause");
    assert(c0@.options =~= quotes_tree().subcommands[0].options);
    assert(c0@ == quotes_tree().subcommands[0]);
    g.add_subcommand(c0);
    let mut c1 = command("get", "Get a specific quote");
    c1.add_arg("id");
    assert(c1@.args =~= quotes_tree().subcommands[1].args);
    assert(c1@ == quotes_tree().subcommands[1]);
    g.add_subcommand(c1);
    let mut c2 = command("create", "Create a quote");
    c2.add_option("file");
    assert(c2@.options =~= quotes_tree().subcommands[2].options);
    assert(c2@ == quotes_tree().subcommands[2]);
    g.add_subcommand(c2);
    let mut c3 = command("update", "Update a quote");
    c3.add_arg("id");
    c3.add_option("expiry-date");
    c3.add_option("status");
    c3.add_option("file");
    assert(c3@.args =~= quotes_tree().subcommands[3].args);
    assert(c3@.options =~= quotes_tree().subcommands[3].options);
    assert(c3@ == quotes_tree().subcommands[3]);
    g.add_subcommand(c3);
    assert(g@.subcommands =~= quotes_tree().subcommands);
    assert(g@ == quotes_tree());
    g
}

/// The `currencies` group of the command tree.
pub open spec fn currencies_tree() -> CommandTree {
    node("currencies"@, "List currencies"@, Seq::empty(), Seq::empty(), Seq::empty(), seq![
            node("list"@, "List currencies"@, Seq::empty(), Seq::empty(), Seq::empty(), Seq::empty()),
        ])
}

fn group_currencies() -> (c: CommandSpec)
    ensures
        c@ == currencies_tree(),
{
    let mut g = command("currencies", "List currencies");
    let c0 = command("list", "List currencies");
    assert(c0@ == currencies_tree().subcommands[0]);
    g.add_subcommand(c0);
    assert(g@.subcommands =~= currencies_tree().subcommands);
    assert(g@ == currencies_tree());
    g
}

/// The `employees` group of the command tree.
pub open spec fn employees_tree() -> CommandTree {
    node("employees"@, "Manage employees"@, Seq::empty(), Seq::empty(), Seq::empty(), seq![
            node("list"@, "List employees"@, Seq::empty(), Seq::empty(), Seq::empty(), Seq::empty()),
            node("get"@, "Get a specific employee"@, seq!["id"@], Seq::empty(), Seq::empty(), Seq::empty()),
        ])
}

fn group_employees() -> (c: CommandSpec)
    ensures
        c@ == employees_tree(),
{
    let mut g = command("employees", "Manage employees");
    let c0 = command("list", "List employees");
    assert(c0@ == employees_tree().subcommands[0]);
    g.add_subcommand(c0);
    let mut c1 = command("get", "Get a specific employee");
    c1.add_arg("id");
    assert(c1@.args =~= employees_tree().subcommands[1].args);
    assert(c1@ == employees_tree().subcommands[1]);
    g.add_subcommand(c1);
    assert(g@.subcommands =~= employees_tree().subcommands);
    assert(g@ == employees_tree());
    g
}

/// The `users` group of the command tree.
pub open spec fn users_tree() -> CommandTree {
    node("users"@, "Manage users"@, Seq::empty(), Seq::empty(), Seq::empty(), seq![
            node("list"@, "List users"@, Seq::empty(), Seq::empty(), Seq::empty(), Seq::empty()),
            node("get"@, "Get a specific user"@, seq!["id"@], Seq::empty(), Seq::empty(), Seq::empty()),
        ])
}

fn group_users() -> (c: CommandSpec)
    ensures
        c@ == users_tree(),
{
    let mut g = command("users", "Manage users");
    let c0 = command("list", "List users");
    assert(c0@ == users_tree().subcommands[0]);
    g.add_subcommand(c0);
    let mut c1 = command("get", "Get a specific user");
    c1.add_arg("id");
    assert(c1@.args =~= users_tree().subcommands[1].args);
    assert(c1@ == users_tree().subcommands[1]);
    g.add_subcommand(c1);
    assert(g@.subcommands =~= users_tree().subcommands);
    assert(g@ == users_tree());
    g
}

/// The `budgets` group of the command tree.
pub open spec fn budgets_tree() -> CommandTree {
    node("budgets"@, "Manage budgets"@, Seq::empty(), Seq::empty(), Seq::empty(), seq![
            node("list"@, "List budgets"@, Seq::empty(), Seq::empty(), Seq::empty(), Seq::empty()),
            node("get"@, "Get a specific budget"@, seq!["id"@], Seq::empty(), Seq::empty(), Seq::empty()),
        ])
}

fn group_budgets() -> (c: CommandSpec)
    ensures
        c@ == budgets_tree(),
{
    let mut g = command("budgets", "Manage budgets");
    let c0 = command("list", "List budgets");
    assert(c0@ == budgets_tree().subcommands[0]);
    g.add_subcommand(c0);
    let mut c1 = command("get", "Get a specific budget");
    c1.add_arg("id");
    assert(c1@.args =~= budgets_tree().subcommands[1].args);
    assert(c1@ == budgets_tree().subcommands[1]);
    g.add_subcommand(c1);
    assert(g@.subcommands =~= budgets_tree().subcommands);
    assert(g@ == budgets_tree());
    g
}

/// The `branding-themes` group of the command tree.
pub open spec fn branding_themes_tree() -> CommandTree {
    node("branding-themes"@, "Manage branding themes"@, Seq::empty(), Seq::empty(), Seq::empty(), seq![
            node("list"@, "List branding themes"@, Seq::empty(), Seq::empty(), Seq::empty(), Seq::empty()),
            node("get"@, "Get a specific branding theme"@, seq!["id"@], Seq::empty(), Seq::empty(), Seq::empty()),
        ])
}

fn group_branding_themes() -> (c: CommandSpec)
    ensures
        c@ == branding_themes_tree(),
{
    let mut g = command("branding-themes", "Manage branding themes");
    let c0 = command("list", "List branding themes");
    assert(c0@ == branding_themes_tree().subcommands[0]);
    g.add_subcommand(c0);
    let mut c1 = command("get", "Get a specific branding theme");
    c1.add_arg("id");
    assert(c1@.args =~= branding_themes_tree().subcommands[1].args);
    assert(c1@ == branding_themes_tree().subcommands[1]);
    g.add_subcommand(c1);
    assert(g@.subcommands =~= branding_themes_tree().subcommands);
    assert(g@ == branding_themes_tree());
    g
}

/// The `repeating-invoices` group of the command tree.
pub open spec fn repeating_invoices_tree() -> CommandTree {
    node("repeating-invoices"@, "Manage repeating invoices"@, Seq::empty(), Seq::empty(), Seq::empty(), seq![
            node("list"@, "List repeating invoices"@, Seq::empty(), Seq::empty(), Seq::empty(), Seq::empty()),
            node("get"@, "Get a specific repeating invoice"@, seq!["id"@], Seq::empty(), Seq::empty(), Seq::empty()),
        ])
}

fn group_repeating_invoices() -> (c: CommandSpec)
    ensures
        c@ == repeating_invoices_tree(),
{
    let mut g = command("repeating-invoices", "Manage repeating invoices");
    let c0 = command("list", "List repeating invoices");
    assert(c0@ == repeating_invoices_tree().subcommands[0]);
    g.add_subcommand(c0);
    let mut c1 = command("get", "Get a specific repeating invoice");
    c1.add_arg("id");
    assert(c1@.args =~= repeating_invoices_tree().subcommands[1].args);
    assert(c1@ == repeating_invoices_tree().subcommands[1]);
    g.add_subcommand(c1);
    assert(g@.subcommands =~= repeating_invoices_tree().subcommands);
    assert(g@ == repeating_invoices_tree());
    g
}

/// The `organisation` group of the command tree.
pub open spec fn organisation_tree() -> CommandTree {
    node("organisation"@, "View organisation details"@, Seq::empty(), Seq::empty(), Seq::empty(), seq![
            node("get"@, "Get organisation details"@, Seq::empty(), Seq::empty(), Seq::empty(), Seq::empty()),
        ])
}

fn group_organisation() -> (c: CommandSpec)
    ensures
        c@ == organisation_tree(),
{
    let mut g = command("organisation", "View organisation details");
    let c0 = command("get", "Get organisation details");
    assert(c0@ == organisation_tree().subcommands[0]);
    g.add_subcommand(c0);
    assert(g@.subcommands =~= organisation_tree().subcommands);
    assert(g@ == organisation_tree());
    g
}

/// The `payment-services` group of the command tree.
pub open spec fn payment_services_tree() -> CommandTree {
    node("payment-services"@, "Manage payment services"@, Seq::empty(), Seq::empty(), Seq::empty(), seq![
            node("list"@, "List payment services"@, Seq::empty(), Seq::empty(), Seq::empty(), Seq::empty()),
        ])
}

fn group_payment_services() -> (c: CommandSpec)
    ensures
        c@ == payment_services_tree(),
{
    let mut g = command("payment-services", "Manage payment services");
    let c0 = command("list", "List payment services");
    assert(c0@ == payment_services_tree().subcommands[0]);
    g.add_subcommand(c0);
    assert(g@.subcommands =~= payment_services_tree().subcommands);
    assert(g@ == payment_services_tree());
    g
}

/// The `reports` group of the command tree.
pub open spec fn reports_tree() -> CommandTree {
    node("reports"@, "View financial reports"@, Seq::empty(), Seq::empty(), Seq::empty(), seq![
            node("profit-and-loss"@, "Profit and Loss report"@, Seq::empty(), seq!["from"@, "to"@], Seq::empty(), Seq::empty()),
            node("balance-sheet"@, "Balance Sheet report"@, Seq::empty(), seq!["date"@], Seq::empty(), Seq::empty()),
            node("trial-balance"@, "Trial Balance report"@, Seq::empty(), seq!["date"@], Seq::empty(), Seq::empty()),
            node("bank-summary"@, "Bank Summary report"@, Seq::empty(), Seq::empty(), Seq::empty(), Seq::empty()),
            node("budget-summary"@, "Budget Summary report"@, Seq::empty(), seq!["from"@, "to"@], Seq::empty(), Seq::empty()),
            node("executive-summary"@, "Executive Summary report"@, Seq::empty(), Seq::empty(), Seq::empty(), Seq::empty()),
            node("aged-receivables"@, "Aged Receivables by Contact"@, Seq::empty(), seq!["contact"@], Seq::empty(), Seq::empty()),
            node("aged-payables"@, "Aged Payables by Contact"@, Seq::empty(), seq!["contact"@], Seq::empty(), Seq::empty()),
        ])
}

fn group_reports() -> (c: CommandSpec)
    ensures
        c@ == reports_tree(),
{
    let mut g = command("reports", "View financial reports");
    let mut c0 = command("profit-and-loss", "Profit and Loss report");
    c0.add_option("from");
    c0.add_option("to");
    assert(c0@.options =~= reports_tree().subcommands[0].options);
    assert(c0@ == reports_tree().subcommands[0]);
    g.add_subcommand(c0);
    let mut c1 = command("balance-sheet", "Balance Sheet report");
    c1.add_option("date");
    assert(c1@.options =~= reports_tree().subcommands[1].options);
    assert(c1@ == reports_tree().subcommands[1]);
    g.add_subcommand(c1);
    let mut c2 = command("trial-balance", "Trial Balance report");
    c2.add_option("date");
    assert(c2@.options =~= reports_tree().subcommands[2].options);
    assert(c2@ == reports_tree().subcommands[2]);
    g.add_subcommand(c2);
    let c3 = command("bank-summary", "Bank Summary report");
    assert(c3@ == reports_tree().subcommands[3]);
    g.add_subcommand(c3);
    let mut c4 = command("budget-summary", "Budget Summary report");
    c4.add_option("from");
    c4.add_option("to");
    assert(c4@.options =~= reports_tree().subcommands[4].options);
    assert(c4@ == reports_tree().subcommands[4]);
    g.add_subcommand(c4);
    let c5 = command("executive-summary", "Executive Summary report");
    assert(c5@ == reports_tree().subcommands[5]);
    g.add_subcommand(c5);
    let mut c6 = command("aged-receivables", "Aged Receivables by Contact");
    c6.add_option("contact");
    assert(c6@.options =~= reports_tree().subcommands[6].options);
    assert(c6@ == reports_tree().subcommands[6]);
    g.add_subcommand(c6);
    let mut c7 = command("aged-payables", "Aged Payables by Contact");
    c7.add_option("contact");
    assert(c7@.options =~= reports_tree().subcommands[7].options);
    assert(c7@ == reports_tree().subcommands[7]);
    g.add_subcommand(c7);
    assert(g@.subcommands =~= reports_tree().subcommands);
    assert(g@ == reports_tree());
    g
}

/// The `tax-rates` group of the command tree.
pub open spec fn tax_rates_tree() -> CommandTree {
    node("tax-rates"@, "Manage tax rates"@, Seq::empty(), Seq::empty(), Seq::empty(), seq![
            node("list"@, "List tax rates"@, Seq::empty(), Seq::empty(), Seq::empty(), Seq::empty()),
            node("create"@, "Create a tax rate"@, Seq::empty(), seq!["name"@, "tax-type"@, "rate"@], Seq::empty(), Seq::empty()),
            node("update"@, "Update a tax rate"@, Seq::empty(), seq!["name"@, "status"@, "file"@], Seq::empty(), Seq::empty()),
        ])
}

fn group_tax_rates() -> (c: CommandSpec)
    ensures
        c@ == tax_rates_tree(),
{
    let mut g = command("tax-rates", "Manage tax rates");
    let c0 = command("list", "List tax rates");
    assert(c0@ == tax_rates_tree().subcommands[0]);
    g.add_subcommand(c0);
    let mut c1 = command("create", "Create a tax rate");
    c1.add_option("name");
    c1.add_option("tax-type");
    c1.add_option("rate");
    assert(c1@.options =~= tax_rates_tree().subcommands[1].options);
    assert(c1@ == tax_rates_tree().subcommands[1]);
    g.add_subcommand(c1);
    let mut c2 = command("update", "Update a tax rate");
    c2.add_option("name");
    c2.add_option("status");
    c2.add_option("file");
    assert(c2@.options =~= tax_rates_tree().subcommands[2].options);
    assert(c2@ == tax_rates_tree().subcommands[2]);
    g.add_subcommand(c2);
    assert(g@.subcommands =~= tax_rates_tree().subcommands);
    assert(g@ == tax_rates_tree());
    g
}

/// The `contact-groups` group of the command tree.
pub open spec fn contact_groups_tree() -> CommandTree {
    node("contact-groups"@, "Manage contact groups"@, Seq::empty(), Seq::empty(), Seq::empty(), seq![
            node("list"@, "List contact groups"@, Seq::empty(), Seq::empty(), Seq::empty(), Seq::empty()),
            node("get"@, "Get a specific contact group"@, seq!["id"@], Seq::empty(), Seq::empty(), Seq::empty()),
            node("create"@, "Create a contact group"@, Seq::empty(), seq!["name"@], Seq::empty(), Seq::empty()),
            node("update"@, "Update a contact group"@, seq!["id"@], seq!["name"@], Seq::empty(), Seq::empty()),
            node("delete"@, "Delete a contact group"@, seq!["id"@], Seq::empty(), Seq::empty(), Seq::empty()),
        ])
}

fn group_contact_groups() -> (c: CommandSpec)
    ensures
        c@ == contact_groups_tree(),
{
    let mut g = command("contact-groups", "Manage contact groups");
    let c0 = command("list", "List contact groups");
    assert(c0@ == contact_groups_tree().subcommands[0]);
    g.add_subcommand(c0);
    let mut c1 = command("get", "Get a specific contact group");
    c1.add_arg("id");
    assert(c1@.args =~= contact_groups_tree().subcommands[1].args);
    assert(c1@ == contact_groups_tree().subcommands[1]);
    g.add_subcommand(c1);
    let mut c2 = command("create", "Create a contact group");
    c2.add_option("name");
    assert(c2@.options =~= contact_groups_tree().subcommands[2].options);
    assert(c2@ == contact_groups_tree().subcommands[2]);
    g.add_subcommand(c2);
    let mut c3 = command("update", "Update a contact group");
    c3.add_arg("id");
    c3.add_option("name");
    assert(c3@.args =~= contact_groups_tree().subcommands[3].args);
    assert(c3@.options =~= contact_groups_tree().subcommands[3].options);
    assert(c3@ == contact_groups_tree().subcommands[3]);
    g.add_subcommand(c3);
    let mut c4 = command("delete", "Delete a contact group");
    c4.add_arg("id");
    assert(c4@.args =~= contact_groups_tree().subcommands[4].args);
    assert(c4@ == contact_groups_tree().subcommands[4]);
    g.add_subcommand(c4);
    assert(g@.subcommands =~= contact_groups_tree().subcommands);
    assert(g@ == contact_groups_tree());
    g
}

/// The `manual-journals` group of the command tree.
pub open spec fn manual_journals_tree() -> CommandTree {
    node("manual-journals"@, "Manage manual journals"@, Seq::empty(), Seq::empty(), Seq::empty(), seq![
            node("list"@, "List manual journals"@, Seq::empty(), Seq::empty(), Seq::empty(), Seq::empty()),
            node("get"@, "Get a specific manual journal"@, seq!["id"@], Seq::empty(), Seq::empty(), Seq::empty()),
            node("create"@, "Create a manual journal"@, Seq::empty(), seq!["file"@], Seq::empty(), Seq::empty()),
            node("update"@, "Update a manual journal"@, seq!["id"@], seq!["file"@, "narration"@], Seq::empty(), Seq::empty()),
        ])
}

fn group_manual_journals() -> (c: CommandSpec)
    ensures
        c@ == manual_journals_tree(),
{
    let mut g = command("manual-journals", "Manage manual journals");
    let c0 = command("list", "List manual journals");
    assert(c0@ == manual_journals_tree().subcommands[0]);
    g.add_subcommand(c0);
    let mut c1 = command("get", "Get a specific manual journal");
    c1.add_arg("id");
    assert(c1@.args =~= manual_journals_tree().subcommands[1].args);
    assert(c1@ == manual_journals_tree().subcommands[1]);
    g.add_subcommand(c1);
    let mut c2 = command("create", "Create a manual journal");
    c2.add_option("file");
    assert(c2@.options =~= manual_journals_tree().subcommands[2].options);
    assert(c2@ == manual_journals_tree().subcommands[2]);
    g.add_subcommand(c2);
    let mut c3 = command("update", "Update a manual journal");
    c3.add_arg("id");
    c3.add_option("file");
    c3.add_option("narration");
    assert(c3@.args =~= manual_journals_tree().subcommands[3].args);
    assert(c3@.options =~= manual_journals_tree().subcommands[3].options);
    assert(c3@ == manual_journals_tree().subcommands[3]);
    g.add_subcommand(c3);
    assert(g@.subcommands =~= manual_journals_tree().subcommands);
    assert(g@ == manual_journals_tree());
    g
}

/// The `linked-transactions` group of the command tree.
pub open spec fn linked_transactions_tree() -> CommandTree {
    node("linked-transactions"@, "Manage linked transactions"@, Seq::empty(), Seq::empty(), Seq::empty(), seq![
            node("list"@, "List linked transactions"@, Seq::empty(), Seq::empty(), Seq::empty(), Seq::empty()),
            node("get"@, "Get a specific linked transaction"@, seq!["id"@], Seq::empty(), Seq::empty(), Seq::empty()),
            node("create"@, "Create a linked transaction"@, Seq::empty(), seq!["file"@], Seq::empty(), Seq::empty()),
            node("update"@, "Update a linked transaction"@, seq!["id"@], seq!["file"@], Seq::empty(), Seq::empty()),
            node("delete"@, "Delete a linked transaction"@, seq!["id"@], Seq::empty(), Seq::empty(), Seq::empty()),
        ])
}

fn group_linked_transactions() -> (c: CommandSpec)
    ensures
        c@ == linked_transactions_tree(),
{
    let mut g = command("linked-transactions", "Manage linked transactions");
    let c0 = command("list", "List linked transactions");
    assert(c0@ == linked_transactions_tree().subcommands[0]);
    g.add_subcommand(c0);
    let mut c1 = command("get", "Get a specific linked transaction");
    c1.add_arg("id");
    assert(c1@.args =~= linked_transactions_tree().subcommands[1].args);
    assert(c1@ == linked_transactions_tree().subcommands[1]);
    g.add_subcommand(c1);
    let mut c2 = command("create", "Create a linked transaction");
    c2.add_option("file");
    assert(c2@.options =~= linked_transactions_tree().subcommands[2].options);
    assert(c2@ == linked_transactions_tree().subcommands[2]);
    g.add_subcommand(c2);
    let mut c3 = command("update", "Update a linked transaction");
    c3.add_arg("id");
    c3.add_option("file");
    assert(c3@.args =~= linked_transactions_tree().subcommands[3].args);
    assert(c3@.options =~= linked_transactions_tree().subcommands[3].options);
    assert(c3@ == linked_transactions_tree().subcommands[3]);
    g.add_subcommand(c3);
    let mut c4 = command("delete", "Delete a linked transaction");
    c4.add_arg("id");
    assert(c4@.args =~= linked_transactions_tree().subcommands[4].args);
    assert(c4@ == linked_transactions_tree().subcommands[4]);
    g.add_subcommand(c4);
    assert(g@.subcommands =~= linked_transactions_tree().subcommands);
    assert(g@ == linked_transactions_tree());
    g
}

/// The `receipts` group of the command tree.
pub open spec fn receipts_tree() -> CommandTree {
    node("receipts"@, "Manage receipts"@, Seq::empty(), Seq::empty(), Seq::empty(), seq![
            node("list"@, "List receipts"@, Seq::empty(), Seq::empty(), Seq::empty(), Seq::empty()),
            node("get"@, "Get a specific receipt"@, seq!["id"@], Seq::empty(), Seq::empty(), Seq::empty()),
            node("create"@, "Create a receipt"@, Seq::empty(), seq!["file"@], Seq::empty(), Seq::empty()),
            node("history"@, "View receipt history"@, seq!["id"@], Seq::empty(), Seq::empty(), Seq::empty()),
        ])
}

fn group_receipts() -> (c: CommandSpec)
    ensures
        c@ == receipts_tree(),
{
    let mut g = command("receipts", "Manage receipts");
    let c0 = command("list", "List receipts");
    assert(c0@ == receipts_tree().subcommands[0]);
    g.add_subcommand(c0);
    let mut c1 = command("get", "Get a specific receipt");
    c1.add_arg("id");
    assert(c1@.args =~= receipts_tree().subcommands[1].args);
    assert(c1@ == receipts_tree().subcommands[1]);
    g.add_subcommand(c1);
    let mut c2 = command("create", "Create a receipt");
    c2.add_option("file");
    assert(c2@.options =~= receipts_tree().subcommands[2].options);
    assert(c2@ == receipts_tree().subcommands[2]);
    g.add_subcommand(c2);
    let mut c3 = command("history", "View receipt history");
    c3.add_arg("id");
    assert(c3@.args =~= receipts_tree().subcommands[3].args);
    assert(c3@ == receipts_tree().subcommands[3]);
    g.add_subcommand(c3);
    assert(g@.subcommands =~= receipts_tree().subcommands);
    assert(g@ == receipts_tree());
    g
}

/// The `batch-payments` group of the command tree.
pub open spec fn batch_payments_tree() -> CommandTree {
    node("batch-payments"@, "Manage batch payments"@, Seq::empty(), Seq::empty(), Seq::empty(), seq![
            node("list"@, "List batch payments"@, Seq::empty(), Seq::empty(), Seq::empty(), Seq::empty()),
            node("get"@, "Get a specific batch payment"@, seq!["id"@], Seq::empty(), Seq::empty(), Seq::empty()),
            node("create"@, "Create a batch payment"@, Seq::empty(), seq!["file"@], Seq::empty(), Seq::empty()),
            node("delete"@, "Delete a batch payment"@, seq!["id"@], Seq::empty(), Seq::empty(), Seq::empty()),
        ])
}

fn group_batch_payments() -> (c: CommandSpec)
    ensures
        c@ == batch_payments_tree(),
{
    let mut g = command("batch-payments", "Manage batch payments");
    let c0 = command("list", "List batch payments");
    assert(c0@ == batch_payments_tree().subcommands[0]);
    g.add_subcommand(c0);
    let mut c1 = command("get", "Get a specific batch payment");
    c1.add_arg("id");
    assert(c1@.args =~= batch_payments_tree().subcommands[1].args);
    assert(c1@ == batch_payments_tree().subcommands[1]);
    g.add_subcommand(c1);
    let mut c2 = command("create", "Create a batch payment");
    c2.add_option("file");
    assert(c2@.options =~= batch_payments_tree().subcommands[2].options);
    assert(c2@ == batch_payments_tree().subcommands[2]);
    g.add_subcommand(c2);
    let mut c3 = command("delete", "Delete a batch payment");
    c3.add_arg("id");
    assert(c3@.args =~= batch_payments_tree().subcommands[3].args);
    assert(c3@ == batch_payments_tree().subcommands[3]);
    g.add_subcommand(c3);
    assert(g@.subcommands =~= batch_payments_tree().subcommands);
    assert(g@ == batch_payments_tree());
    g
}

/// The `expense-claims` group of the command tree.
pub open spec fn expense_claims_tree() -> CommandTree {
    node("expense-claims"@, "Manage expense claims"@, Seq::empty(), Seq::empty(), Seq::empty(), seq![
            node("list"@, "List expense claims"@, Seq::empty(), Seq::empty(), Seq::empty(), Seq::empty()),
            node("get"@, "Get a specific expense claim"@, seq!["id"@], Seq::empty(), Seq::empty(), Seq::empty()),
            node("create"@, "Create an expense claim"@, Seq::empty(), seq!["file"@], Seq::empty(), Seq::empty()),
            node("update"@, "Update an expense claim"@, seq!["id"@], seq!["status"@, "file"@], Seq::empty(), Seq::empty()),
            node("history"@, "View expense claim history"@, seq!["id"@], Seq::empty(), Seq::empty(), Seq::empty()),
        ])
}

fn group_expense_claims() -> (c: CommandSpec)
    ensures
        c@ == expense_claims_tree(),
{
    let mut g = command("expense-claims", "Manage expense claims");
    let c0 = command("list", "List expense claims");
    assert(c0@ == expense_claims_tree().subcommands[0]);
    g.add_subcommand(c0);
    let mut c1 = command("get", "Get a specific expense claim");
    c1.add_arg("id");
    assert(c1@.args =~= expense_claims_tree().subcommands[1].args);
    assert(c1@ == expense_claims_tree().subcommands[1]);
    g.add_subcommand(c1);
    let mut c2 = command("create", "Create an expense claim");
    c2.add_option("file");
    assert(c2@.options =~= expense_claims_tree().subcommands[2].options);
    assert(c2@ == expense_claims_tree().subcommands[2]);
    g.add_subcommand(c2);
    let mut c3 = command("update", "Update an expense claim");
    c3.add_arg("id");
    c3.add_option("status");
    c3.add_option("file");
    assert(c3@.args =~= expense_claims_tree().subcommands[3].args);
    assert(c3@.options =~= expense_claims_tree().subcommands[3].options);
    assert(c3@ == expense_claims_tree().subcommands[3]);
    g.add_subcommand(c3);
    let mut c4 = command("history", "View expense claim history");
    c4.add_arg("id");
    assert(c4@.args =~= expense_claims_tree().subcommands[4].args);
    assert(c4@ == expense_claims_tree().subcommands[4]);
    g.add_subcommand(c4);
    assert(g@.subcommands =~= expense_claims_tree().subcommands);
    assert(g@ == expense_claims_tree());
    g
}

/// The `overpayments` group of the command tree.
pub open spec fn overpayments_tree() -> CommandTree {
    node("overpayments"@, "Manage overpayments"@, Seq::empty(), Seq::empty(), Seq::empty(), seq![
            node("list"@, "List overpayments"@, Seq::empty(), Seq::empty(), Seq::empty(), Seq::empty()),
            node("get"@, "Get a specific overpayment"@, seq!["id"@], Seq::empty(), Seq::empty(), Seq::empty()),
            node("allocate"@, "Allocate an overpayment to an invoice"@, seq!["id"@], seq!["invoice"@, "amount"@], Seq::empty(), Seq::empty()),
            node("history"@, "View overpayment history"@, seq!["id"@], Seq::empty(), Seq::empty(), Seq::empty()),
        ])
}

fn group_overpayments() -> (c: CommandSpec)
    ensures
        c@ == overpayments_tree(),
{
    let mut g = command("overpayments", "Manage overpayments");
    let c0 = command("list", "List overpayments");
    assert(c0@ == overpayments_tree().subcommands[0]);
    g.add_subcommand(c0);
    let mut c1 = command("get", "Get a specific overpayment");
    c1.add_arg("id");
    assert(c1@.args =~= overpayments_tree().subcommands[1].args);
    assert(c1@ == overpayments_tree().subcommands[1]);
    g.add_subcommand(c1);
    let mut c2 = command("allocate", "Allocate an overpayment to an invoice");
    c2.add_arg("id");
    c2.add_option("invoice");
    c2.add_option("amount");
    assert(c2@.args =~= overpayments_tree().subcommands[2].args);
    assert(c2@.options =~= overpayments_tree().subcommands[2].options);
    assert(c2@ == overpayments_tree().subcommands[2]);
    g.add_subcommand(c2);
    let mut c3 = command("history", "View overpayment history");
    c3.add_arg("id");
    assert(c3@.args =~= overpayments_tree().subcommands[3].args);
    assert(c3@ == overpayments_tree().subcommands[3]);
    g.add_subcommand(c3);
    assert(g@.subcommands =~= overpayments_tree().subcommands);
    assert(g@ == overpayments_tree());
    g
}

/// The `prepayments` group of the command tree.
pub open spec fn prepayments_tree() -> CommandTree {
    node("prepayments"@, "Manage prepayments"@, Seq::empty(), Seq::empty(), Seq::empty(), seq![
            node("list"@, "List prepayments"@, Seq::empty(), Seq::empty(), Seq::empty(), Seq::empty()),
            node("get"@, "Get a specific prepayment"@, seq!["id"@], Seq::empty(), Seq::empty(), Seq::empty()),
            node("allocate"@, "Allocate a prepayment to an invoice"@, seq!["id"@], seq!["invoice"@, "amount"@], Seq::empty(), Seq::empty()),
            node("history"@, "View prepayment history"@, seq!["id"@], Seq::empty(), Seq::empty(), Seq::empty()),
        ])
}

fn group_prepayments() -> (c: CommandSpec)
    ensures
        c@ == prepayments_tree(),
{
    let mut g = command("prepayments", "Manage prepayments");
    let c0 = command("list", "List prepayments");
    assert(c0@ == prepayments_tree().subcommands[0]);
    g.add_subcommand(c0);
    let mut c1 = command("get", "Get a specific prepayment");
    c1.add_arg("id");
    assert(c1@.args =~= prepayments_tree().subcommands[1].args);
    assert(c1@ == prepayments_tree().subcommands[1]);
    g.add_subcommand(c1);
    let mut c2 = command("allocate", "Allocate a prepayment to an invoice");
    c2.add_arg("id");
    c2.add_option("invoice");
    c2.add_option("amount");
    assert(c2@.args =~= prepayments_tree().subcommands[2].args);
    assert(c2@.options =~= prepayments_tree().subcommands[2].options);
    assert(c2@ == prepayments_tree().subcommands[2]);
    g.add_subcommand(c2);
    let mut c3 = command("history", "View prepayment history");
    c3.add_arg("id");
    assert(c3@.args =~= prepayments_tree().subcommands[3].args);
    assert(c3@ == prepayments_tree().subcommands[3]);
    g.add_subcommand(c3);
    assert(g@.subcommands =~= prepayments_tree().subcommands);
    assert(g@ == prepayments_tree());
    g
}

/// The `tracking-categories` group of the command tree.
pub open spec fn tracking_categories_tree() -> CommandTree {
    node("tracking-categories"@, "Manage tracking categories"@, Seq::empty(), Seq::empty(), Seq::empty(), seq![
            node("list"@, "List tracking categories"@, Seq::empty(), Seq::empty(), Seq::empty(), Seq::empty()),
            node("get"@, "Get a specific tracking category"@, seq!["id"@], Seq::empty(), Seq::empty(), Seq::empty()),
            node("create"@, "Create a tracking category"@, Seq::empty(), seq!["name"@], Seq::empty(), Seq::empty()),
            node("update"@, "Update a tracking category"@, seq!["id"@], seq!["name"@], Seq::empty(), Seq::empty()),
            node("add-option"@, "Add an option to a tracking category"@, seq!["id"@], seq!["name"@], Seq::empty(), Seq::empty()),
            node("update-option"@, "Update an option in a tracking category"@, seq!["id"@], seq!["option-id"@, "name"@], Seq::empty(), Seq::empty()),
            node("remove-option"@, "Remove an option from a tracking category"@, seq!["id"@], seq!["option-id"@], Seq::empty(), Seq::empty()),
        ])
}

fn group_tracking_categories() -> (c: CommandSpec)
    ensures
        c@ == tracking_categories_tree(),
{
    let mut g = command("tracking-categories", "Manage tracking categories");
    let c0 = command("list", "List tracking categories");
    assert(c0@ == tracking_categories_tree().subcommands[0]);
    g.add_subcommand(c0);
    let mut c1 = command("get", "Get a specific tracking category");
    c1.add_arg("id");
    assert(c1@.args =~= tracking_categories_tree().subcommands[1].args);
    assert(c1@ == tracking_categories_tree().subcommands[1]);
    g.add_subcommand(c1);
    let mut c2 = command("create", "Create a tracking category");
    c2.add_option("name");
    assert(c2@.options =~= tracking_categories_tree().subcommands[2].options);
    assert(c2@ == tracking_categories_tree().subcommands[2]);
    g.add_subcommand(c2);
    let mut c3 = command("update", "Update a tracking category");
    c3.add_arg("id");
    c3.add_option("name");
    assert(c3@.args =~= tracking_categories_tree().subcommands[3].args);
    assert(c3@.options =~= tracking_categories_tree().subcommands[3].options);
    assert(c3@ == tracking_categories_tree().subcommands[3]);
    g.add_subcommand(c3);
    let mut c4 = command("add-option", "Add an option to a tracking category");
    c4.add_arg("id");
    c4.add_option("name");
    assert(c4@.args =~= tracking_categories_tree().subcommands[4].args);
    assert(c4@.options =~= tracking_categories_tree().subcommands[4].options);
    assert(c4@ == tracking_categories_tree().subcommands[4]);
    g.add_subcommand(c4);
    let mut c5 = command("update-option", "Update an option in a tracking category");
    c5.add_arg("id");
    c5.add_option("option-id");
    c5.add_option("name");
    assert(c5@.args =~= tracking_categories_tree().subcommands[5].args);
    assert(c5@.options =~= tracking_categories_tree().subcommands[5].options);
    assert(c5@ == tracking_categories_tree().subcommands[5]);
    g.add_subcommand(c5);
    let mut c6 = command("remove-option", "Remove an option from a tracking category");
    c6.add_arg("id");
    c6.add_option("option-id");
    assert(c6@.args =~= tracking_categories_tree().subcommands[6].args);
    assert(c6@.options =~= tracking_categories_tree().subcommands[6].options);
    assert(c6@ == tracking_categories_tree().subcommands[6]);
    g.add_subcommand(c6);
    assert(g@.subcommands =~= tracking_categories_tree().subcommands);
    assert(g@ == tracking_categories_tree());
    g
}

/// The `journals` group of the command tree.
pub open spec fn journals_tree() -> CommandTree {
    node("journals"@, "View journals"@, Seq::empty(), Seq::empty(), Seq::empty(), seq![
            node("list"@, "List journals"@, Seq::empty(), seq!["offset"@], Seq::empty(), Seq::empty()),
            node("get"@, "Get a specific journal"@, seq!["id"@], Seq::empty(), Seq::empty(), Seq::empty()),
        ])
}

fn group_journals() -> (c: CommandSpec)
    ensures
        c@ == journals_tree(),
{
    let mut g = command("journals", "View journals");
    let mut c0 = command("list", "List journals");
    c0.add_option("offset");
    assert(c0@.options =~= journals_tree().subcommands[0].options);
    assert(c0@ == journals_tree().subcommands[0]);
    g.add_subcommand(c0);
    let mut c1 = command("get", "Get a specific journal");
    c1.add_arg("id");
    assert(c1@.args =~= journals_tree().subcommands[1].args);
    assert(c1@ == journals_tree().subcommands[1]);
    g.add_subcommand(c1);
    assert(g@.subcommands =~= journals_tree().subcommands);
    assert(g@ == journals_tree());
    g
}

/// The `cache` group of the command tree.
pub open spec fn cache_tree() -> CommandTree {
    node("cache"@, "Manage response cache"@, Seq::empty(), Seq::empty(), Seq::empty(), seq![
            node("clear"@, "Clear the response cache"@, Seq::empty(), seq!["resource"@], Seq::empty(), Seq::empty()),
            node("stats"@, "Show cache statistics"@, Seq::empty(), Seq::empty(), Seq::empty(), Seq::empty()),
        ])
}

fn group_cache() -> (c: CommandSpec)
    ensures
        c@ == cache_tree(),
{
    let mut g = command("cache", "Manage response cache");
    let mut c0 = command("clear", "Clear the response cache");
    c0.add_option("resource");
    assert(c0@.options =~= cache_tree().subcommands[0].options);
    assert(c0@ == cache_tree().subcommands[0]);
    g.add_subcommand(c0);
    let c1 = command("stats", "Show cache statistics");
    assert(c1@ == cache_tree().subcommands[1]);
    g.add_subcommand(c1);
    assert(g@.subcommands =~= cache_tree().subcommands);
    assert(g@ == cache_tree());
    g
}

/// The `config` group of the command tree.
pub open spec fn config_tree() -> CommandTree {
    node("config"@, "Manage configuration"@, Seq::empty(), Seq::empty(), Seq::empty(), seq![
            node("init"@, "Initialize configuration file"@, Seq::empty(), Seq::empty(), Seq::empty(), Seq::empty()),
            node("show"@, "Show current configuration"@, Seq::empty(), Seq::empty(), Seq::empty(), Seq::empty()),
            node("set"@, "Set a configuration value"@, seq!["key"@, "value"@], Seq::empty(), Seq::empty(), Seq::empty()),
        ])
}

fn group_config() -> (c: CommandSpec)
    ensures
        c@ == config_tree(),
{
    let mut g = command("config", "Manage configuration");
    let c0 = command("init", "Initialize configuration file");
    assert(c0@ == config_tree().subcommands[0]);
    g.add_subcommand(c0);
    let c1 = command("show", "Show current configuration");
    assert(c1@ == config_tree().subcommands[1]);
    g.add_subcommand(c1);
    let mut c2 = command("set", "Set a configuration value");
    c2.add_arg("key");
    c2.add_arg("value");
    assert(c2@.args =~= config_tree().subcommands[2].args);
    assert(c2@ == config_tree().subcommands[2]);
    g.add_subcommand(c2);
    assert(g@.subcommands =~= config_tree().subcommands);
    assert(g@ == config_tree());
    g
}

/// The `completions` group of the command tree.
pub open spec fn completions_tree() -> CommandTree {
    node("completions"@, "Generate shell completions and man pages"@, Seq::empty(), Seq::empty(), Seq::empty(), seq![
            node("bash"@, "Generate bash completions"@, Seq::empty(), Seq::empty(), Seq::empty(), Seq::empty()),
            node("zsh"@, "Generate zsh completions"@, Seq::empty(), Seq::empty(), Seq::empty(), Seq::empty()),
            node("fish"@, "Generate fish completions"@, Seq::empty(), Seq::empty(), Seq::empty(), Seq::empty()),
        ])
}

fn group_completions() -> (c: CommandSpec)
    ensures
        c@ == completions_tree(),
{
    let mut g = command("completions", "Generate shell completions and man pages");
    let c0 = command("bash", "Generate bash completions");
    assert(c0@ == completions_tree().subcommands[0]);
    g.add_subcommand(c0);
    let c1 = command("zsh", "Generate zsh completions");
    assert(c1@ == completions_tree().subcommands[1]);
    g.add_subcommand(c1);
    let c2 = command("fish", "Generate fish completions");
    assert(c2@ == completions_tree().subcommands[2]);
    g.add_subcommand(c2);
    assert(g@.subcommands =~= completions_tree().subcommands);
    assert(g@ == completions_tree());
    g
}

/// The command tree that shell completions are generated from: every command
/// of the command-line interface with its positional arguments, options and flags.
pub open spec fn cli_tree() -> CommandTree {
    node(
        "xero"@,
        "A fast CLI for the Xero Accounting API"@,
        Seq::empty(),
        seq!["profile"@, "output"@, "page-size"@, "modified-since"@, "config"@],
        seq!["compact"@, "no-color"@, "verbose"@, "quiet"@, "dry-run"@, "all-pages"@, "no-cache"@],
        seq![
            auth_tree(),
            invoices_tree(),
            contacts_tree(),
            accounts_tree(),
            payments_tree(),
            items_tree(),
            bank_transactions_tree(),
            bank_transfers_tree(),
            credit_notes_tree(),
            purchase_orders_tree(),
            quotes_tree(),
            currencies_tree(),
            employees_tree(),
            users_tree(),
            budgets_tree(),
            branding_themes_tree(),
            repeating_invoices_tree(),
            organisation_tree(),
            payment_services_tree(),
            reports_tree(),
            tax_rates_tree(),
            contact_groups_tree(),
            manual_journals_tree(),
            linked_transactions_tree(),
            receipts_tree(),
            batch_payments_tree(),
            expense_claims_tree(),
            overpayments_tree(),
            prepayments_tree(),
            tracking_categories_tree(),
            journals_tree(),
            cache_tree(),
            config_tree(),
            completions_tree(),
        ],
    )
}

/// The description of the command-line interface that completion scripts are
/// generated from.
#[verifier::rlimit(100)]
pub fn build_cli_command() -> (c: CommandSpec)
    ensures
        c@ == cli_tree(),
{
    let mut root = command("xero", "A fast CLI for the Xero Accounting API");
    root.add_option("profile");
    root.add_option("output");
    root.add_option("page-size");
    root.add_option("modified-since");
    root.add_option("config");
    root.add_flag("compact");
    root.add_flag("no-color");
    root.add_flag("verbose");
    root.add_flag("quiet");
    root.add_flag("dry-run");
    root.add_flag("all-pages");
    root.add_flag("no-cache");
    root.add_subcommand(group_auth());
    root.add_subcommand(group_invoices());
    root.add_subcommand(group_contacts());
    root.add_subcommand(group_accounts());
    root.add_subcommand(group_payments());
    root.add_subcommand(group_items());
    root.add_subcommand(group_bank_transactions());
    root.add_subcommand(group_bank_transfers());
    root.add_subcommand(group_credit_notes());
    root.add_subcommand(group_purchase_orders());
    root.add_subcommand(group_quotes());
    root.add_subcommand(group_currencies());
    root.add_subcommand(group_employees());
    root.add_subcommand(group_users());
    root.add_subcommand(group_budgets());
    root.add_subcommand(group_branding_themes());
    root.add_subcommand(group_repeating_invoices());
    root.add_subcommand(group_organisation());
    root.add_subcommand(group_payment_services());
    root.add_subcommand(group_reports());
    root.add_subcommand(group_tax_rates());
    root.add_subcommand(group_contact_groups());
    root.add_subcommand(group_manual_journals());
    root.add_subcommand(group_linked_transactions());
    root.add_subcommand(group_receipts());
    root.add_subcommand(group_batch_payments());
    root.add_subcommand(group_expense_claims());
    root.add_subcommand(group_overpayments());
    root.add_subcommand(group_prepayments());
    root.add_subcommand(group_tracking_categories());
    root.add_subcommand(group_journals());
    root.add_subcommand(group_cache());
    root.add_subcommand(group_config());
    root.add_subcommand(group_completions());
    assert(root@.options =~= cli_tree().options);
    assert(root@.flags =~= cli_tree().flags);
    assert(root@.subcommands =~= cli_tree().subcommands);
    assert(root@ == cli_tree());
    root
}

} // verus!
