use aura::bot::commands::anonimo::{anon_step, AnonAction, AnonEvent, AnonState};
use aura::bot::commands::info::{info_step, InfoAction, InfoEvent, InfoState};
use aura::bot::commands::definircanais::{config_step, ConfigAction, ConfigEvent, ConfigState};
use aura::db::models::goal::Goal;
use aura::bot::commands::canal::CanalAction;
use aura::bot::commands::canal::CanalEvent;
use aura::bot::commands::canal::CanalState;
use aura::bot::commands::canal::canal_step;
use aura::bot::commands::definircanal::AssignAction;
use aura::bot::commands::definircanal::AssignEvent;
use aura::bot::commands::definircanal::AssignState;
use aura::bot::commands::definircanal::assign_step;
use aura::bot::commands::definirmeta::GoalAction;
use aura::bot::commands::definirmeta::GoalEvent;
use aura::bot::commands::definirmeta::GoalState;
use aura::bot::commands::definirmeta::goal_step;
use aura::bot::commands::{anonimo, canal, definircanais, definircanal, definirmeta, info, meta, setcanais, setmeta};
use aura::bot::events::interaction_create::{route_button, route_command, route_modal, CommandRoute, ModalRoute};
use aura::bot::handlers::command::register_commands;
use aura::bot::models::command::{OptionKind, OptionValue};
use aura::bot::models::embed::Colour;
use aura::bot::components::buttons_meta::Verdict;
use aura::bot::components::modal_goal::approval_buttons;
use aura::db::models::channels::ChannelIds;

#[test]
fn registered_commands_in_order() {
    let names: Vec<String> = register_commands().into_iter().map(|c| c.name).collect();
    assert_eq!(names, vec!["meta", "canal", "anonimo", "definirmeta", "definircanais", "definircanal", "info"]);
}

#[test]
fn every_registered_command_is_routed() {
    let routes: Vec<Option<CommandRoute>> = register_commands().iter().map(|c| route_command(&c.name)).collect();
    assert_eq!(
        routes,
        vec![
            Some(CommandRoute::Meta),
            Some(CommandRoute::Canal),
            Some(CommandRoute::Anonimo),
            Some(CommandRoute::DefinirMeta),
            Some(CommandRoute::DefinirCanais),
            Some(CommandRoute::DefinirCanal),
            Some(CommandRoute::Info),
        ]
    );
    assert_eq!(route_command("setmeta"), None);
    assert_eq!(route_command("Meta"), None);
}

#[test]
fn the_goal_form_and_its_buttons_are_routed() {
    assert_eq!(route_modal(&meta::goal_modal().custom_id), Some(ModalRoute::Goal));
    assert_eq!(route_modal("other"), None);
    let buttons = approval_buttons();
    assert_eq!(route_button(&buttons[0].custom_id), Some(Verdict::Approved));
    assert_eq!(route_button(&buttons[1].custom_id), Some(Verdict::Rejected));
    assert_eq!(route_button("approve"), None);
}

#[test]
fn command_definitions() {
    let a = anonimo::register();
    assert_eq!(a.description, "Envie uma mensagem anónima");
    assert_eq!(a.options.len(), 1);
    assert_eq!(a.options[0].kind, OptionKind::String);
    assert_eq!(a.options[0].name, "mensagem");
    assert!(a.options[0].required);
    assert!(!a.admin_only);

    let d = definircanais::register();
    assert!(d.admin_only);
    let names: Vec<&str> = d.options.iter().map(|o| o.name.as_str()).collect();
    assert_eq!(names, vec!["individual", "anonimo", "meta", "logs", "approval", "resultadometa"]);
    assert!(d.options.iter().all(|o| o.kind == OptionKind::Channel && o.required));

    let c = definircanal::register();
    assert_eq!(c.options[0].kind, OptionKind::User);
    assert_eq!(c.options[1].kind, OptionKind::Channel);

    let m = definirmeta::register();
    assert_eq!(m.options[0].kind, OptionKind::Integer);
    assert_eq!(m.options[0].description, "A quantidade de dinheiro sujo (ex: 1000000).");
    assert!(m.admin_only);

    assert_eq!(canal::register().description, "Crie o seu canal individual");
    assert_eq!(info::register().description, "Ver informações sobre a sua meta semanal");
    assert_eq!(meta::register().description, "Envie infos sobre a meta");
    assert_eq!(setcanais::register().options.len(), 4);
    assert!(!setmeta::register().admin_only);
}

#[test]
fn anonymous_message_option() {
    assert_eq!(anonimo::message_option(&vec![OptionValue::String("oi".to_string())]), Some("oi".to_string()));
    assert_eq!(anonimo::message_option(&vec![OptionValue::Integer(3)]), None);
    assert_eq!(anonimo::message_option(&vec![]), None);
    let e = anonimo::anonymous_embed("segredo".to_string());
    assert_eq!(e.description, "segredo");
    assert_eq!(e.colour, Colour::LightGrey);
    assert!(e.timestamp);
    assert_eq!(anonimo::sent_embed().description, "A sua mensagem foi enviada com sucesso!");
}

#[test]
fn individual_channel_texts() {
    assert_eq!(canal::existing_channel_reply(42), "❌ - Você já possui um canal individual aberto <#42>.");
    assert_eq!(canal::channel_name("ana"), "🙋┇ana");
    let e = canal::created_embed(7, 99);
    assert_eq!(e.description, "- Olá <@7>, o seu novo canal individual foi aberto.\n> Você pode encontrar ele aqui <#99>.");
    assert_eq!(e.footer.as_deref(), Some("Aura - Canal Individual"));
    assert_eq!(canal::created_log(99, 7), "Canal individual criado com sucesso!\n> Canal: <#99>\n> Criador: <@7>");
    let rules = canal::channel_permissions(5, 7);
    assert_eq!(rules.len(), 2);
    assert_eq!(rules[0].target, canal::OverwriteTarget::Role(5));
    assert_eq!(rules[0].deny, vec![canal::Permission::ViewChannel]);
    assert_eq!(rules[1].target, canal::OverwriteTarget::Member(7));
    assert_eq!(rules[1].allow, vec![canal::Permission::ViewChannel]);
    assert_eq!(rules[1].deny, vec![canal::Permission::SendTtsMessages]);
}

#[test]
fn channel_configuration() {
    let opts: Vec<OptionValue> = (1..=6).map(OptionValue::Channel).collect();
    let ids = definircanais::channels_from_options(&opts).unwrap();
    assert_eq!(
        ids,
        ChannelIds {
            individuals_category_id: 1,
            anonymous_channel_id: 2,
            meta_channel_id: 3,
            logs_channel_id: 4,
            approval_channel_id: 5,
            results_channel_id: 6,
        }
    );
    let mut bad = opts;
    bad[3] = OptionValue::User(4);
    assert_eq!(definircanais::channels_from_options(&bad), None);
    assert_eq!(definircanais::channels_from_options(&vec![OptionValue::Channel(1)]), None);
    let e = definircanais::configured_embed(ids);
    assert_eq!(e.title.as_deref(), Some("✅ Configuração Concluída!"));
    assert_eq!(
        e.description,
        "Os canais foram configurados com sucesso!\n\n**Canais Definidos:**\n💬 **Individual:** <#1>\n🤫 **Anônimo:** <#2>\n📊 **Meta:** <#3>\n📑 **Logs:** <#4>\n✅ **Aprovação:** <#5>\n         📈 **Resultado da Meta:** <#6>\n"
    );
    assert_eq!(e.colour, Colour::Rgb(144, 238, 144));
}

#[test]
fn channel_assignment() {
    assert_eq!(
        definircanal::target_options(&vec![OptionValue::User(3), OptionValue::Channel(8)]),
        Some((3, 8))
    );
    assert_eq!(definircanal::target_options(&vec![OptionValue::Channel(8), OptionValue::User(3)]), None);
    assert_eq!(definircanal::existing_channel_reply(8), "❌ - Esse usuário já possui um canal individual aberto <#8>.");
    assert_eq!(definircanal::assigned_embed(3, 8).description, "- Você definiu o usuário <@3> para o canal <#8>");
    assert_eq!(
        definircanal::assigned_log(8, 3, 1),
        "Canal individual definido com sucesso!\n> Canal: <#8>\n> User: <@3> \n> Definido por: <@1>"
    );
}

#[test]
fn weekly_goal_texts() {
    assert_eq!(definirmeta::amount_option(&vec![OptionValue::Integer(1_500_000)]), Some(1_500_000));
    assert_eq!(definirmeta::amount_option(&vec![OptionValue::String("x".to_string())]), None);
    assert!(definirmeta::goal_accepted(0));
    assert!(!definirmeta::goal_accepted(-1));
    assert_eq!(definirmeta::negative_goal_reply(), "🚫 O valor da meta não pode ser negativo!");
    let e = definirmeta::announcement_embed(1_500_000, "Admin", 1704747600);
    assert_eq!(e.title.as_deref(), Some("📢 Nova Meta Semanal Ativada!"));
    assert_eq!(
        e.description,
        "**💰 Valor da meta:** `1kk sujo`\n**📅 Data Limite:** <t:1704747600:R>\n\nQuem será o destaque da semana? 👀"
    );
    assert_eq!(e.footer.as_deref(), Some("Meta definida por Admin"));
    assert_eq!(e.colour, Colour::Rgb(241, 196, 15));
    assert_eq!(definirmeta::everyone_mention(), "@everyone");
    assert_eq!(
        definirmeta::updated_embed(25_000).description,
        "📌 **Meta semanal definida com sucesso!**\n\n💰 Valor definido: **$25k**\n🗓️ Vigência: *Esta semana*\n\nVamos com tudo! 🚀"
    );
    assert_eq!(
        definirmeta::updated_log(25_000, 9),
        "📢 **Meta semanal atualizada!**\n> 💸 Valor: **$25k**\n> 👤 Responsável: <@9>"
    );
}

#[test]
fn info_summary() {
    let e = info::info_embed(2_000_000, 1_250, 1704747600);
    assert_eq!(
        e.description,
        "💰 **Meta Atual:** `2kk`\n\n📈 **Total Entregue:** `1k`\n\n📅 **Data de entrega:** <t:1704747600:R>"
    );
    assert_eq!(e.footer.as_deref(), Some("Meta Semanal"));
    assert_eq!(e.title.as_deref(), Some("📊 Informações da Meta Semanal"));
    let negative = info::info_embed(0, -1, 0);
    assert_eq!(negative.description, "💰 **Meta Atual:** `0`\n\n📈 **Total Entregue:** `18446744073709kk`\n\n📅 **Data de entrega:** <t:0:R>");
}

#[test]
fn goal_form() {
    let m = meta::goal_modal();
    assert_eq!(m.title, "Entregar Meta");
    assert_eq!(m.inputs[0].custom_id, "value");
    assert_eq!(m.inputs[1].custom_id, "who");
    assert_eq!(m.inputs[1].placeholder, "Digite a quem entregadou");
    assert_eq!(setcanais::set_embed().description, "Canais definidos com sucesso!");
}

#[test]
fn a_second_individual_channel_is_refused() {
    assert_eq!(
        canal::channel_refusal(Some(42)),
        Some("❌ - Você já possui um canal individual aberto <#42>.".to_string())
    );
    assert_eq!(canal::channel_refusal(None), None);
    assert_eq!(
        definircanal::channel_refusal(Some(8)),
        Some("❌ - Esse usuário já possui um canal individual aberto <#8>.".to_string())
    );
    assert_eq!(definircanal::channel_refusal(None), None);
}

fn same_command(a: &aura::bot::models::command::CommandSpec, b: &aura::bot::models::command::CommandSpec) -> bool {
    a.name == b.name
        && a.description == b.description
        && a.admin_only == b.admin_only
        && a.options.len() == b.options.len()
        && a.options.iter().zip(b.options.iter()).all(|(x, y)| {
            x.kind == y.kind && x.name == y.name && x.description == y.description && x.required == y.required
        })
}

#[test]
fn registered_commands_are_each_modules_own() {
    let r = register_commands();
    assert_eq!(r.len(), 7);
    assert!(same_command(&r[0], &meta::register()));
    assert!(same_command(&r[1], &canal::register()));
    assert!(same_command(&r[2], &anonimo::register()));
    assert!(same_command(&r[3], &definirmeta::register()));
    assert!(same_command(&r[4], &definircanais::register()));
    assert!(same_command(&r[5], &definircanal::register()));
    assert!(same_command(&r[6], &info::register()));
    assert_eq!(r[0].description, "Envie infos sobre a meta");
    assert!(!r[0].admin_only);
    assert_eq!(r[4].description, "Defina os canais do bot");
    assert!(r[4].admin_only);
    assert_eq!(r[4].options.len(), 6);
}

fn ids() -> ChannelIds {
    ChannelIds {
        individuals_category_id: 1,
        anonymous_channel_id: 2,
        meta_channel_id: 3,
        logs_channel_id: 4,
        approval_channel_id: 5,
        results_channel_id: 6,
    }
}

#[test]
fn canal_creates_logs_and_stops() {
    let (s, a) = canal_step(Some(9), CanalState::Start, CanalEvent::Begin);
    assert_eq!(a, CanalAction::LoadExisting);
    let (s, a) = canal_step(Some(9), s, CanalEvent::Existing(None));
    assert_eq!(a, CanalAction::LoadChannels);
    let (s, a) = canal_step(Some(9), s, CanalEvent::Channels(Some(ids())));
    assert_eq!(a, CanalAction::CreateChannel { guild: 9, category: 1 });
    let (s, a) = canal_step(Some(9), s, CanalEvent::Created(Some(70)));
    assert_eq!(a, CanalAction::Record { channel: 70 });
    let (s, a) = canal_step(Some(9), s, CanalEvent::Recorded(true));
    assert_eq!(a, CanalAction::Reply { channel: 70 });
    let (s, a) = canal_step(Some(9), s, CanalEvent::Replied);
    assert_eq!(a, CanalAction::Log { logs: 4, channel: 70 });
    let (s, a) = canal_step(Some(9), s, CanalEvent::Logged);
    assert_eq!((s, a), (CanalState::Done, CanalAction::Stop));
}

#[test]
fn canal_refuses_a_second_channel_and_stops_on_failures() {
    assert_eq!(canal_step(Some(9), CanalState::CheckingExisting, CanalEvent::Existing(Some(33))), (CanalState::Done, CanalAction::Refuse { channel: 33 }));
    assert_eq!(canal_step(None, CanalState::CheckingExisting, CanalEvent::Existing(None)), (CanalState::Done, CanalAction::Stop));
    assert_eq!(canal_step(Some(9), CanalState::LoadingChannels { guild: 9 }, CanalEvent::Channels(None)), (CanalState::Done, CanalAction::Stop));
    assert_eq!(canal_step(Some(9), CanalState::Creating { logs: 4 }, CanalEvent::Created(None)), (CanalState::Done, CanalAction::Stop));
    assert_eq!(canal_step(Some(9), CanalState::Recording { logs: 4, channel: 70 }, CanalEvent::Recorded(false)), (CanalState::Done, CanalAction::Stop));
}

#[test]
fn definirmeta_stores_then_announces() {
    let amount = Some(2_000_000);
    let (s, a) = goal_step(amount, GoalState::Start, GoalEvent::Begin);
    assert_eq!(a, GoalAction::LoadChannels);
    let (s, a) = goal_step(amount, s, GoalEvent::Channels(Some(ids())));
    assert_eq!(a, GoalAction::Save { amount: 2_000_000 });
    let (s, a) = goal_step(amount, s, GoalEvent::Saved(true));
    assert_eq!(a, GoalAction::LoadDeadline);
    let (s, a) = goal_step(amount, s, GoalEvent::Deadline(Some(1_700_000_000)));
    assert_eq!(a, GoalAction::Announce { channel: 3, amount: 2_000_000, deadline: 1_700_000_000 });
    let (s, a) = goal_step(amount, s, GoalEvent::Announced);
    assert_eq!(a, GoalAction::Mention { channel: 3 });
    let (s, a) = goal_step(amount, s, GoalEvent::Mentioned);
    assert_eq!(a, GoalAction::Reply { amount: 2_000_000 });
    let (s, a) = goal_step(amount, s, GoalEvent::Replied);
    assert_eq!(a, GoalAction::Log { logs: 4, amount: 2_000_000 });
    assert_eq!(goal_step(amount, s, GoalEvent::Logged), (GoalState::Done, GoalAction::Stop));
}

#[test]
fn definirmeta_refuses_negative_and_missing_amounts() {
    assert_eq!(goal_step(Some(-1), GoalState::LoadingChannels, GoalEvent::Channels(Some(ids()))), (GoalState::Done, GoalAction::RefuseNegative));
    assert_eq!(goal_step(None, GoalState::LoadingChannels, GoalEvent::Channels(Some(ids()))), (GoalState::Done, GoalAction::Stop));
    assert_eq!(
        goal_step(Some(0), GoalState::LoadingChannels, GoalEvent::Channels(Some(ids()))).1,
        GoalAction::Save { amount: 0 }
    );
    assert_eq!(goal_step(Some(5), GoalState::LoadingChannels, GoalEvent::Channels(None)), (GoalState::Done, GoalAction::Stop));
    let saving = GoalState::Saving { meta: 3, logs: 4, amount: 5 };
    assert_eq!(goal_step(Some(5), saving, GoalEvent::Saved(false)), (GoalState::Done, GoalAction::Stop));
    let loading = GoalState::LoadingDeadline { meta: 3, logs: 4, amount: 5 };
    assert_eq!(goal_step(Some(5), loading, GoalEvent::Deadline(None)), (GoalState::Done, GoalAction::DeadlineUnavailable));
}

#[test]
fn definircanal_assigns_only_a_free_user() {
    let target = Some((21, 80));
    let (s, a) = assign_step(target, AssignState::Start, AssignEvent::Begin);
    assert_eq!(a, AssignAction::LoadChannels);
    let (s, a) = assign_step(target, s, AssignEvent::Channels(Some(ids())));
    assert_eq!(a, AssignAction::LoadExisting { user: 21 });
    assert_eq!(assign_step(target, s, AssignEvent::Existing(Some(55))), (AssignState::Done, AssignAction::Refuse { channel: 55 }));
    let (s, a) = assign_step(target, s, AssignEvent::Existing(None));
    assert_eq!(a, AssignAction::Record { user: 21, channel: 80 });
    let (s, a) = assign_step(target, s, AssignEvent::Recorded(true));
    assert_eq!(a, AssignAction::Reply { user: 21, channel: 80 });
    let (s, a) = assign_step(target, s, AssignEvent::Replied);
    assert_eq!(a, AssignAction::Log { logs: 4, user: 21, channel: 80 });
    assert_eq!(assign_step(target, s, AssignEvent::Logged), (AssignState::Done, AssignAction::Stop));
    assert_eq!(assign_step(None, AssignState::LoadingChannels, AssignEvent::Channels(Some(ids()))), (AssignState::Done, AssignAction::MissingOptions));
}

#[test]
fn an_anonymous_message_is_confirmed_only_once_posted() {
    let message = Some("olá".to_string());
    let (s, a) = anon_step(&message, AnonState::Start, AnonEvent::Begin);
    assert!(matches!(a, AnonAction::LoadChannels));
    let (s, a) = anon_step(&message, s, AnonEvent::Channels(Some(ids())));
    assert!(matches!(a, AnonAction::Send { channel: 2, ref message } if message == "olá"));
    let (s, a) = anon_step(&message, s, AnonEvent::Sent(true));
    assert!(matches!(a, AnonAction::Reply));
    let (_, a) = anon_step(&message, s, AnonEvent::Replied);
    assert!(matches!(a, AnonAction::Stop));
    assert!(matches!(anon_step(&message, AnonState::Sending, AnonEvent::Sent(false)).1, AnonAction::Stop));
    assert!(matches!(anon_step(&None, AnonState::LoadingChannels, AnonEvent::Channels(Some(ids()))).1, AnonAction::Stop));
}

#[test]
fn info_answers_with_the_callers_total() {
    let g = |user_id: i64, amount: i64| Goal {
        id: 0,
        user_id,
        amount,
        created_at: None,
        status: Some("Approved".to_string()),
        message_id: None,
    };
    let (s, a) = info_step(12, InfoState::Start, InfoEvent::Begin);
    assert_eq!(a, InfoAction::LoadCurrentMeta);
    let (s, a) = info_step(12, s, InfoEvent::CurrentMeta(Some(1_000_000)));
    assert_eq!(a, InfoAction::LoadWeek);
    let (s, a) = info_step(12, s, InfoEvent::Week(Some(vec![g(12, 100), g(13, 5), g(12, 20)])));
    assert_eq!(a, InfoAction::LoadDeadline);
    let (s, a) = info_step(12, s, InfoEvent::Deadline(Some(1_700_000_000)));
    assert_eq!(a, InfoAction::Reply { current_meta: 1_000_000, total: 120, deadline: 1_700_000_000 });
    assert_eq!(info_step(12, s, InfoEvent::Replied), (InfoState::Done, InfoAction::Stop));
    let waiting = InfoState::LoadingWeek { current_meta: 1 };
    let overflow = vec![g(12, i32::MAX as i64), g(12, 1)];
    assert_eq!(info_step(12, waiting, InfoEvent::Week(Some(overflow))).1, InfoAction::Overflowed);
    let deadline = InfoState::LoadingDeadline { current_meta: 1, total: 2 };
    assert_eq!(info_step(12, deadline, InfoEvent::Deadline(None)).1, InfoAction::DeadlineUnavailable);
    assert_eq!(info_step(12, InfoState::LoadingMeta, InfoEvent::CurrentMeta(None)).1, InfoAction::Stop);
}

#[test]
fn channels_are_listed_only_once_stored() {
    let (s, a) = config_step(Some(ids()), ConfigState::Start, ConfigEvent::Begin);
    assert_eq!(a, ConfigAction::Save(ids()));
    assert_eq!(config_step(Some(ids()), s, ConfigEvent::Saved(false)), (ConfigState::Done, ConfigAction::Stop));
    let (s, a) = config_step(Some(ids()), s, ConfigEvent::Saved(true));
    assert_eq!(a, ConfigAction::Reply(ids()));
    assert_eq!(config_step(Some(ids()), s, ConfigEvent::Replied), (ConfigState::Done, ConfigAction::Stop));
    assert_eq!(config_step(None, ConfigState::Start, ConfigEvent::Begin).1, ConfigAction::MissingOptions);
}
