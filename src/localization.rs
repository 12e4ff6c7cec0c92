use vstd::prelude::*;

verus! {

/// The languages that the plugin's texts are translated into.
#[derive(Clone, Copy, Debug, PartialEq, Eq, Structural)]
pub enum Lang {
    English,
    Dutch,
    French,
    German,
    Italian,
    Portuguese,
    Polish,
    Russian,
    Spanish,
    BrazilianPortuguese,
    ChineseSimplified,
    ChineseTraditional,
    Japanese,
    Korean,
}

/// The texts that the plugin shows in its hotkeys and properties.
#[derive(Clone, Copy, Debug, PartialEq, Eq, Structural)]
pub enum Text {
    HotkeySplit,
    HotkeyReset,
    HotkeyUndoSplit,
    HotkeySkipSplit,
    HotkeyPause,
    HotkeyUndoAllPauses,
    HotkeyPreviousComparison,
    HotkeyNextComparison,
    HotkeyToggleTimingMethod,
    PropertyWidth,
    PropertyHeight,
    PropertySplits,
    PropertySplitsFilter,
    PropertyAutoSave,
    PropertySaveSplits,
    PropertyLayout,
    PropertyLayoutFilter,
    PropertyAdvancedStartGameOptions,
    PropertyGamePath,
    PropertyGamePathFilter,
    PropertyGameArguments,
    PropertyWorkingDirectory,
    PropertyWorkingDirectoryFilter,
    PropertyGameEnvironmentVars,
    PropertyStartGame,
    AutoSplitterUseLocal,
    AutoSplitterLocalFile,
    AutoSplitterLocalFileFilter,
    AutoSplitterNoSplitsLoaded,
    AutoSplitterActivate,
    AutoSplitterDeactivate,
    AutoSplitterWebsite,
    AutoSplitterSettingsGroup,
    AutoSplitterIncompatible,
    AutoSplitterUnavailable,
}

impl Text {
    /// This text in the language `lang`.
    pub fn resolve(self, lang: Lang) -> &'static str {
        match lang {
            Lang::English => resolve_english(self),
            Lang::Dutch => resolve_dutch(self),
            Lang::French => resolve_french(self),
            Lang::German => resolve_german(self),
            Lang::Italian => resolve_italian(self),
            Lang::Portuguese => resolve_portuguese(self),
            Lang::Polish => resolve_polish(self),
            Lang::Russian => resolve_russian(self),
            Lang::Spanish => resolve_spanish(self),
            Lang::BrazilianPortuguese => resolve_brazilian_portuguese(self),
            Lang::ChineseSimplified => resolve_chinese_simplified(self),
            Lang::ChineseTraditional => resolve_chinese_traditional(self),
            Lang::Japanese => resolve_japanese(self),
            Lang::Korean => resolve_korean(self),
        }
    }
}

fn resolve_english(text: Text) -> &'static str {
    match text {
        Text::HotkeySplit => "Start / Split",
        Text::HotkeyReset => "Reset",
        Text::HotkeyUndoSplit => "Undo Split",
        Text::HotkeySkipSplit => "Skip Split",
        Text::HotkeyPause => "Pause",
        Text::HotkeyUndoAllPauses => "Undo All Pauses",
        Text::HotkeyPreviousComparison => "Previous Comparison",
        Text::HotkeyNextComparison => "Next Comparison",
        Text::HotkeyToggleTimingMethod => "Toggle Timing Method",
        Text::PropertyWidth => "Width",
        Text::PropertyHeight => "Height",
        Text::PropertySplits => "Splits",
        Text::PropertySplitsFilter => "LiveSplit Splits (*.lss)",
        Text::PropertyAutoSave => "Save On Reset",
        Text::PropertySaveSplits => "Save Splits",
        Text::PropertyLayout => "Layout",
        Text::PropertyLayoutFilter => "LiveSplit Layouts (*.lsl *.ls1l)",
        Text::PropertyAdvancedStartGameOptions => "Advanced start game options",
        Text::PropertyGamePath => "Game Path",
        Text::PropertyGamePathFilter => "Executable files (*)",
        Text::PropertyGameArguments => "Game Arguments",
        Text::PropertyWorkingDirectory => "Working Directory",
        Text::PropertyWorkingDirectoryFilter => "Directories",
        Text::PropertyGameEnvironmentVars => "Game Environment Variables (KEY=VALUE)",
        Text::PropertyStartGame => "Start Game",
        Text::AutoSplitterUseLocal => "Use local auto splitter",
        Text::AutoSplitterLocalFile => "Local Auto Splitter File",
        Text::AutoSplitterLocalFileFilter => "LiveSplit One Auto Splitter (*.wasm)",
        Text::AutoSplitterNoSplitsLoaded => "No splits loaded",
        Text::AutoSplitterActivate => "Activate",
        Text::AutoSplitterDeactivate => "Deactivate",
        Text::AutoSplitterWebsite => "Website",
        Text::AutoSplitterSettingsGroup => "Auto Splitter Settings",
        Text::AutoSplitterIncompatible => "This game's auto splitter is incompatible with LiveSplit One.",
        Text::AutoSplitterUnavailable => "No auto splitter available for this game.",
    }
}

fn resolve_dutch(text: Text) -> &'static str {
    match text {
        Text::HotkeySplit => "Start / Split",
        Text::HotkeyReset => "Reset",
        Text::HotkeyUndoSplit => "Split ongedaan maken",
        Text::HotkeySkipSplit => "Split overslaan",
        Text::HotkeyPause => "Pauze",
        Text::HotkeyUndoAllPauses => "Alle pauzes ongedaan maken",
        Text::HotkeyPreviousComparison => "Vorige vergelijking",
        Text::HotkeyNextComparison => "Volgende vergelijking",
        Text::HotkeyToggleTimingMethod => "Timingmethode wisselen",
        Text::PropertyWidth => "Breedte",
        Text::PropertyHeight => "Hoogte",
        Text::PropertySplits => "Splits",
        Text::PropertySplitsFilter => "LiveSplit Splits (*.lss)",
        Text::PropertyAutoSave => "Opslaan bij reset",
        Text::PropertySaveSplits => "Splits opslaan",
        Text::PropertyLayout => "Lay-out",
        Text::PropertyLayoutFilter => "LiveSplit-lay-outs (*.lsl *.ls1l)",
        Text::PropertyAdvancedStartGameOptions => "Geavanceerde startspelopties",
        Text::PropertyGamePath => "Spelpad",
        Text::PropertyGamePathFilter => "Uitvoerbare bestanden (*)",
        Text::PropertyGameArguments => "Spelargumenten",
        Text::PropertyWorkingDirectory => "Werkmap",
        Text::PropertyWorkingDirectoryFilter => "Mappen",
        Text::PropertyGameEnvironmentVars => "Omgevingsvariabelen voor spel (KEY=VALUE)",
        Text::PropertyStartGame => "Spel starten",
        Text::AutoSplitterUseLocal => "Lokale auto-splitter gebruiken",
        Text::AutoSplitterLocalFile => "Lokale auto-splitterbestand",
        Text::AutoSplitterLocalFileFilter => "LiveSplit One Auto Splitter (*.wasm)",
        Text::AutoSplitterNoSplitsLoaded => "Geen splits geladen",
        Text::AutoSplitterActivate => "Activeren",
        Text::AutoSplitterDeactivate => "Deactiveren",
        Text::AutoSplitterWebsite => "Website",
        Text::AutoSplitterSettingsGroup => "Auto-splitterinstellingen",
        Text::AutoSplitterIncompatible => "De auto-splitter van dit spel is niet compatibel met LiveSplit One.",
        Text::AutoSplitterUnavailable => "Geen auto-splitter beschikbaar voor dit spel.",
    }
}

fn resolve_french(text: Text) -> &'static str {
    match text {
        Text::HotkeySplit => "Démarrer / Split",
        Text::HotkeyReset => "Réinitialiser",
        Text::HotkeyUndoSplit => "Annuler le split",
        Text::HotkeySkipSplit => "Passer le split",
        Text::HotkeyPause => "Pause",
        Text::HotkeyUndoAllPauses => "Annuler toutes les pauses",
        Text::HotkeyPreviousComparison => "Comparaison précédente",
        Text::HotkeyNextComparison => "Comparaison suivante",
        Text::HotkeyToggleTimingMethod => "Basculer la méthode de timing",
        Text::PropertyWidth => "Largeur",
        Text::PropertyHeight => "Hauteur",
        Text::PropertySplits => "Splits",
        Text::PropertySplitsFilter => "Splits LiveSplit (*.lss)",
        Text::PropertyAutoSave => "Enregistrer lors de la réinitialisation",
        Text::PropertySaveSplits => "Enregistrer les splits",
        Text::PropertyLayout => "Disposition",
        Text::PropertyLayoutFilter => "Dispositions LiveSplit (*.lsl *.ls1l)",
        Text::PropertyAdvancedStartGameOptions => "Options avancées de lancement du jeu",
        Text::PropertyGamePath => "Chemin du jeu",
        Text::PropertyGamePathFilter => "Fichiers exécutables (*)",
        Text::PropertyGameArguments => "Arguments du jeu",
        Text::PropertyWorkingDirectory => "Répertoire de travail",
        Text::PropertyWorkingDirectoryFilter => "Répertoires",
        Text::PropertyGameEnvironmentVars => "Variables d'environnement du jeu (KEY=VALUE)",
        Text::PropertyStartGame => "Lancer le jeu",
        Text::AutoSplitterUseLocal => "Utiliser un auto-splitter local",
        Text::AutoSplitterLocalFile => "Fichier d'auto-splitter local",
        Text::AutoSplitterLocalFileFilter => "LiveSplit One Auto Splitter (*.wasm)",
        Text::AutoSplitterNoSplitsLoaded => "Aucun segment chargé",
        Text::AutoSplitterActivate => "Activer",
        Text::AutoSplitterDeactivate => "Désactiver",
        Text::AutoSplitterWebsite => "Site web",
        Text::AutoSplitterSettingsGroup => "Paramètres d'auto-splitter",
        Text::AutoSplitterIncompatible => "L'auto-splitter de ce jeu est incompatible avec LiveSplit One.",
        Text::AutoSplitterUnavailable => "Aucun auto-splitter disponible pour ce jeu.",
    }
}

fn resolve_german(text: Text) -> &'static str {
    match text {
        Text::HotkeySplit => "Start / Split",
        Text::HotkeyReset => "Zurücksetzen",
        Text::HotkeyUndoSplit => "Split rückgängig",
        Text::HotkeySkipSplit => "Split überspringen",
        Text::HotkeyPause => "Pause",
        Text::HotkeyUndoAllPauses => "Alle Pausen rückgängig",
        Text::HotkeyPreviousComparison => "Vorheriger Vergleich",
        Text::HotkeyNextComparison => "Nächster Vergleich",
        Text::HotkeyToggleTimingMethod => "Zeitmessmethode umschalten",
        Text::PropertyWidth => "Breite",
        Text::PropertyHeight => "Höhe",
        Text::PropertySplits => "Splits",
        Text::PropertySplitsFilter => "LiveSplit Splits (*.lss)",
        Text::PropertyAutoSave => "Beim Zurücksetzen speichern",
        Text::PropertySaveSplits => "Splits speichern",
        Text::PropertyLayout => "Layout",
        Text::PropertyLayoutFilter => "LiveSplit Layouts (*.lsl *.ls1l)",
        Text::PropertyAdvancedStartGameOptions => "Erweiterte Startoptionen für das Spiel",
        Text::PropertyGamePath => "Spielpfad",
        Text::PropertyGamePathFilter => "Ausführbare Dateien (*)",
        Text::PropertyGameArguments => "Spielargumente",
        Text::PropertyWorkingDirectory => "Arbeitsverzeichnis",
        Text::PropertyWorkingDirectoryFilter => "Verzeichnisse",
        Text::PropertyGameEnvironmentVars => "Spiel-Umgebungsvariablen (KEY=VALUE)",
        Text::PropertyStartGame => "Spiel starten",
        Text::AutoSplitterUseLocal => "Lokalen Auto-Splitter verwenden",
        Text::AutoSplitterLocalFile => "Lokale Auto-Splitter-Datei",
        Text::AutoSplitterLocalFileFilter => "LiveSplit One Auto Splitter (*.wasm)",
        Text::AutoSplitterNoSplitsLoaded => "Keine Splits geladen",
        Text::AutoSplitterActivate => "Aktivieren",
        Text::AutoSplitterDeactivate => "Deaktivieren",
        Text::AutoSplitterWebsite => "Website",
        Text::AutoSplitterSettingsGroup => "Auto-Splitter-Einstellungen",
        Text::AutoSplitterIncompatible => "Der Auto-Splitter dieses Spiels ist nicht mit LiveSplit One kompatibel.",
        Text::AutoSplitterUnavailable => "Für dieses Spiel ist kein Auto-Splitter verfügbar.",
    }
}

fn resolve_italian(text: Text) -> &'static str {
    match text {
        Text::HotkeySplit => "Avvia / Split",
        Text::HotkeyReset => "Reimposta",
        Text::HotkeyUndoSplit => "Annulla split",
        Text::HotkeySkipSplit => "Salta split",
        Text::HotkeyPause => "Pausa",
        Text::HotkeyUndoAllPauses => "Annulla tutte le pause",
        Text::HotkeyPreviousComparison => "Confronto precedente",
        Text::HotkeyNextComparison => "Confronto successivo",
        Text::HotkeyToggleTimingMethod => "Cambia metodo di cronometraggio",
        Text::PropertyWidth => "Larghezza",
        Text::PropertyHeight => "Altezza",
        Text::PropertySplits => "Splits",
        Text::PropertySplitsFilter => "LiveSplit Splits (*.lss)",
        Text::PropertyAutoSave => "Salva al reset",
        Text::PropertySaveSplits => "Salva splits",
        Text::PropertyLayout => "Layout",
        Text::PropertyLayoutFilter => "LiveSplit Layouts (*.lsl *.ls1l)",
        Text::PropertyAdvancedStartGameOptions => "Opzioni avanzate di avvio del gioco",
        Text::PropertyGamePath => "Percorso del gioco",
        Text::PropertyGamePathFilter => "File eseguibili (*)",
        Text::PropertyGameArguments => "Argomenti del gioco",
        Text::PropertyWorkingDirectory => "Directory di lavoro",
        Text::PropertyWorkingDirectoryFilter => "Directory",
        Text::PropertyGameEnvironmentVars => "Variabili d'ambiente del gioco (KEY=VALUE)",
        Text::PropertyStartGame => "Avvia gioco",
        Text::AutoSplitterUseLocal => "Usa auto-splitter locale",
        Text::AutoSplitterLocalFile => "File auto-splitter locale",
        Text::AutoSplitterLocalFileFilter => "LiveSplit One Auto Splitter (*.wasm)",
        Text::AutoSplitterNoSplitsLoaded => "Nessuno split caricato",
        Text::AutoSplitterActivate => "Attiva",
        Text::AutoSplitterDeactivate => "Disattiva",
        Text::AutoSplitterWebsite => "Sito web",
        Text::AutoSplitterSettingsGroup => "Impostazioni auto-splitter",
        Text::AutoSplitterIncompatible => "L'auto-splitter di questo gioco è incompatibile con LiveSplit One.",
        Text::AutoSplitterUnavailable => "Nessun auto-splitter disponibile per questo gioco.",
    }
}

fn resolve_portuguese(text: Text) -> &'static str {
    match text {
        Text::HotkeySplit => "Iniciar / Split",
        Text::HotkeyReset => "Reiniciar",
        Text::HotkeyUndoSplit => "Desfazer split",
        Text::HotkeySkipSplit => "Ignorar split",
        Text::HotkeyPause => "Pausar",
        Text::HotkeyUndoAllPauses => "Desfazer todas as pausas",
        Text::HotkeyPreviousComparison => "Comparação anterior",
        Text::HotkeyNextComparison => "Próxima comparação",
        Text::HotkeyToggleTimingMethod => "Alternar método de cronometragem",
        Text::PropertyWidth => "Largura",
        Text::PropertyHeight => "Altura",
        Text::PropertySplits => "Splits",
        Text::PropertySplitsFilter => "LiveSplit Splits (*.lss)",
        Text::PropertyAutoSave => "Guardar ao reiniciar",
        Text::PropertySaveSplits => "Guardar splits",
        Text::PropertyLayout => "Layout",
        Text::PropertyLayoutFilter => "Layouts do LiveSplit (*.lsl *.ls1l)",
        Text::PropertyAdvancedStartGameOptions => "Opções avançadas de início do jogo",
        Text::PropertyGamePath => "Caminho do jogo",
        Text::PropertyGamePathFilter => "Ficheiros executáveis (*)",
        Text::PropertyGameArguments => "Argumentos do jogo",
        Text::PropertyWorkingDirectory => "Diretório de trabalho",
        Text::PropertyWorkingDirectoryFilter => "Diretórios",
        Text::PropertyGameEnvironmentVars => "Variáveis de ambiente do jogo (KEY=VALUE)",
        Text::PropertyStartGame => "Iniciar jogo",
        Text::AutoSplitterUseLocal => "Usar auto-splitter local",
        Text::AutoSplitterLocalFile => "Ficheiro de auto-splitter local",
        Text::AutoSplitterLocalFileFilter => "LiveSplit One Auto Splitter (*.wasm)",
        Text::AutoSplitterNoSplitsLoaded => "Nenhum split carregado",
        Text::AutoSplitterActivate => "Ativar",
        Text::AutoSplitterDeactivate => "Desativar",
        Text::AutoSplitterWebsite => "Website",
        Text::AutoSplitterSettingsGroup => "Definições do auto-splitter",
        Text::AutoSplitterIncompatible => "O auto-splitter deste jogo é incompatível com o LiveSplit One.",
        Text::AutoSplitterUnavailable => "Não há auto-splitter disponível para este jogo.",
    }
}

fn resolve_polish(text: Text) -> &'static str {
    match text {
        Text::HotkeySplit => "Start / Split",
        Text::HotkeyReset => "Reset",
        Text::HotkeyUndoSplit => "Cofnij split",
        Text::HotkeySkipSplit => "Pomiń split",
        Text::HotkeyPause => "Pauza",
        Text::HotkeyUndoAllPauses => "Cofnij wszystkie pauzy",
        Text::HotkeyPreviousComparison => "Poprzednie porównanie",
        Text::HotkeyNextComparison => "Następne porównanie",
        Text::HotkeyToggleTimingMethod => "Przełącz metodę pomiaru czasu",
        Text::PropertyWidth => "Szerokość",
        Text::PropertyHeight => "Wysokość",
        Text::PropertySplits => "Splity",
        Text::PropertySplitsFilter => "LiveSplit Splity (*.lss)",
        Text::PropertyAutoSave => "Zapisuj przy resecie",
        Text::PropertySaveSplits => "Zapisz splity",
        Text::PropertyLayout => "Układ",
        Text::PropertyLayoutFilter => "Układy LiveSplit (*.lsl *.ls1l)",
        Text::PropertyAdvancedStartGameOptions => "Zaawansowane opcje uruchamiania gry",
        Text::PropertyGamePath => "Ścieżka gry",
        Text::PropertyGamePathFilter => "Pliki wykonywalne (*)",
        Text::PropertyGameArguments => "Argumenty gry",
        Text::PropertyWorkingDirectory => "Katalog roboczy",
        Text::PropertyWorkingDirectoryFilter => "Katalogi",
        Text::PropertyGameEnvironmentVars => "Zmienne środowiskowe gry (KEY=VALUE)",
        Text::PropertyStartGame => "Uruchom grę",
        Text::AutoSplitterUseLocal => "Użyj lokalnego auto-splittera",
        Text::AutoSplitterLocalFile => "Plik lokalnego auto-splittera",
        Text::AutoSplitterLocalFileFilter => "LiveSplit One Auto Splitter (*.wasm)",
        Text::AutoSplitterNoSplitsLoaded => "Nie wczytano splitów",
        Text::AutoSplitterActivate => "Aktywuj",
        Text::AutoSplitterDeactivate => "Dezaktywuj",
        Text::AutoSplitterWebsite => "Strona internetowa",
        Text::AutoSplitterSettingsGroup => "Ustawienia auto-splittera",
        Text::AutoSplitterIncompatible => "Auto-splitter tej gry jest niezgodny z LiveSplit One.",
        Text::AutoSplitterUnavailable => "Brak auto-splittera dla tej gry.",
    }
}

fn resolve_russian(text: Text) -> &'static str {
    match text {
        Text::HotkeySplit => "Старт / Сплит",
        Text::HotkeyReset => "Сброс",
        Text::HotkeyUndoSplit => "Отменить сплит",
        Text::HotkeySkipSplit => "Пропустить сплит",
        Text::HotkeyPause => "Пауза",
        Text::HotkeyUndoAllPauses => "Отменить все паузы",
        Text::HotkeyPreviousComparison => "Предыдущее сравнение",
        Text::HotkeyNextComparison => "Следующее сравнение",
        Text::HotkeyToggleTimingMethod => "Переключить метод тайминга",
        Text::PropertyWidth => "Ширина",
        Text::PropertyHeight => "Высота",
        Text::PropertySplits => "Сплиты",
        Text::PropertySplitsFilter => "Сплиты LiveSplit (*.lss)",
        Text::PropertyAutoSave => "Сохранять при сбросе",
        Text::PropertySaveSplits => "Сохранить сплиты",
        Text::PropertyLayout => "Макет",
        Text::PropertyLayoutFilter => "Макеты LiveSplit (*.lsl *.ls1l)",
        Text::PropertyAdvancedStartGameOptions => "Расширенные параметры запуска игры",
        Text::PropertyGamePath => "Путь к игре",
        Text::PropertyGamePathFilter => "Исполняемые файлы (*)",
        Text::PropertyGameArguments => "Аргументы игры",
        Text::PropertyWorkingDirectory => "Рабочая папка",
        Text::PropertyWorkingDirectoryFilter => "Папки",
        Text::PropertyGameEnvironmentVars => "Переменные окружения игры (KEY=VALUE)",
        Text::PropertyStartGame => "Запустить игру",
        Text::AutoSplitterUseLocal => "Использовать локальный авто-сплиттер",
        Text::AutoSplitterLocalFile => "Файл локального авто-сплиттера",
        Text::AutoSplitterLocalFileFilter => "LiveSplit One Auto Splitter (*.wasm)",
        Text::AutoSplitterNoSplitsLoaded => "Сплиты не загружены",
        Text::AutoSplitterActivate => "Активировать",
        Text::AutoSplitterDeactivate => "Деактивировать",
        Text::AutoSplitterWebsite => "Веб-сайт",
        Text::AutoSplitterSettingsGroup => "Настройки авто-сплиттера",
        Text::AutoSplitterIncompatible => "Авто-сплиттер этой игры несовместим с LiveSplit One.",
        Text::AutoSplitterUnavailable => "Для этой игры нет авто-сплиттера.",
    }
}

fn resolve_spanish(text: Text) -> &'static str {
    match text {
        Text::HotkeySplit => "Iniciar / Split",
        Text::HotkeyReset => "Reiniciar",
        Text::HotkeyUndoSplit => "Deshacer split",
        Text::HotkeySkipSplit => "Omitir split",
        Text::HotkeyPause => "Pausa",
        Text::HotkeyUndoAllPauses => "Deshacer todas las pausas",
        Text::HotkeyPreviousComparison => "Comparación anterior",
        Text::HotkeyNextComparison => "Siguiente comparación",
        Text::HotkeyToggleTimingMethod => "Alternar método de cronometraje",
        Text::PropertyWidth => "Ancho",
        Text::PropertyHeight => "Alto",
        Text::PropertySplits => "Splits",
        Text::PropertySplitsFilter => "Splits de LiveSplit (*.lss)",
        Text::PropertyAutoSave => "Guardar al reiniciar",
        Text::PropertySaveSplits => "Guardar splits",
        Text::PropertyLayout => "Diseño",
        Text::PropertyLayoutFilter => "Diseños de LiveSplit (*.lsl *.ls1l)",
        Text::PropertyAdvancedStartGameOptions => "Opciones avanzadas de inicio del juego",
        Text::PropertyGamePath => "Ruta del juego",
        Text::PropertyGamePathFilter => "Archivos ejecutables (*)",
        Text::PropertyGameArguments => "Argumentos del juego",
        Text::PropertyWorkingDirectory => "Directorio de trabajo",
        Text::PropertyWorkingDirectoryFilter => "Directorios",
        Text::PropertyGameEnvironmentVars => "Variables de entorno del juego (KEY=VALUE)",
        Text::PropertyStartGame => "Iniciar juego",
        Text::AutoSplitterUseLocal => "Usar auto-splitter local",
        Text::AutoSplitterLocalFile => "Archivo de auto-splitter local",
        Text::AutoSplitterLocalFileFilter => "LiveSplit One Auto Splitter (*.wasm)",
        Text::AutoSplitterNoSplitsLoaded => "No hay splits cargados",
        Text::AutoSplitterActivate => "Activar",
        Text::AutoSplitterDeactivate => "Desactivar",
        Text::AutoSplitterWebsite => "Sitio web",
        Text::AutoSplitterSettingsGroup => "Ajustes del auto-splitter",
        Text::AutoSplitterIncompatible => "El auto-splitter de este juego es incompatible con LiveSplit One.",
        Text::AutoSplitterUnavailable => "No hay auto-splitter disponible para este juego.",
    }
}

fn resolve_brazilian_portuguese(text: Text) -> &'static str {
    match text {
        Text::HotkeySplit => "Iniciar / Split",
        Text::HotkeyReset => "Resetar",
        Text::HotkeyUndoSplit => "Desfazer split",
        Text::HotkeySkipSplit => "Pular split",
        Text::HotkeyPause => "Pausar",
        Text::HotkeyUndoAllPauses => "Desfazer todas as pausas",
        Text::HotkeyPreviousComparison => "Comparação anterior",
        Text::HotkeyNextComparison => "Próxima comparação",
        Text::HotkeyToggleTimingMethod => "Alternar método de cronometragem",
        Text::PropertyWidth => "Largura",
        Text::PropertyHeight => "Altura",
        Text::PropertySplits => "Splits",
        Text::PropertySplitsFilter => "Splits do LiveSplit (*.lss)",
        Text::PropertyAutoSave => "Salvar ao resetar",
        Text::PropertySaveSplits => "Salvar splits",
        Text::PropertyLayout => "Layout",
        Text::PropertyLayoutFilter => "Layouts do LiveSplit (*.lsl *.ls1l)",
        Text::PropertyAdvancedStartGameOptions => "Opções avançadas de início do jogo",
        Text::PropertyGamePath => "Caminho do jogo",
        Text::PropertyGamePathFilter => "Arquivos executáveis (*)",
        Text::PropertyGameArguments => "Argumentos do jogo",
        Text::PropertyWorkingDirectory => "Diretório de trabalho",
        Text::PropertyWorkingDirectoryFilter => "Diretórios",
        Text::PropertyGameEnvironmentVars => "Variáveis de ambiente do jogo (KEY=VALUE)",
        Text::PropertyStartGame => "Iniciar jogo",
        Text::AutoSplitterUseLocal => "Usar auto-splitter local",
        Text::AutoSplitterLocalFile => "Arquivo de auto-splitter local",
        Text::AutoSplitterLocalFileFilter => "LiveSplit One Auto Splitter (*.wasm)",
        Text::AutoSplitterNoSplitsLoaded => "Nenhum split carregado",
        Text::AutoSplitterActivate => "Ativar",
        Text::AutoSplitterDeactivate => "Desativar",
        Text::AutoSplitterWebsite => "Website",
        Text::AutoSplitterSettingsGroup => "Configurações do auto-splitter",
        Text::AutoSplitterIncompatible => "O auto-splitter deste jogo é incompatível com o LiveSplit One.",
        Text::AutoSplitterUnavailable => "Nenhum auto-splitter disponível para este jogo.",
    }
}

fn resolve_chinese_simplified(text: Text) -> &'static str {
    match text {
        Text::HotkeySplit => "开始 / 分段",
        Text::HotkeyReset => "重置",
        Text::HotkeyUndoSplit => "撤销分段",
        Text::HotkeySkipSplit => "跳过分段",
        Text::HotkeyPause => "暂停",
        Text::HotkeyUndoAllPauses => "撤销全部暂停",
        Text::HotkeyPreviousComparison => "上一个比较",
        Text::HotkeyNextComparison => "下一个比较",
        Text::HotkeyToggleTimingMethod => "切换计时方式",
        Text::PropertyWidth => "宽度",
        Text::PropertyHeight => "高度",
        Text::PropertySplits => "分段",
        Text::PropertySplitsFilter => "LiveSplit 分段 (*.lss)",
        Text::PropertyAutoSave => "重置时保存",
        Text::PropertySaveSplits => "保存分段",
        Text::PropertyLayout => "布局",
        Text::PropertyLayoutFilter => "LiveSplit 布局 (*.lsl *.ls1l)",
        Text::PropertyAdvancedStartGameOptions => "高级启动游戏选项",
        Text::PropertyGamePath => "游戏路径",
        Text::PropertyGamePathFilter => "可执行文件 (*)",
        Text::PropertyGameArguments => "游戏参数",
        Text::PropertyWorkingDirectory => "工作目录",
        Text::PropertyWorkingDirectoryFilter => "目录",
        Text::PropertyGameEnvironmentVars => "游戏环境变量 (KEY=VALUE)",
        Text::PropertyStartGame => "启动游戏",
        Text::AutoSplitterUseLocal => "使用本地自动分段器",
        Text::AutoSplitterLocalFile => "本地自动分段器文件",
        Text::AutoSplitterLocalFileFilter => "LiveSplit One 自动分段器 (*.wasm)",
        Text::AutoSplitterNoSplitsLoaded => "未加载分段",
        Text::AutoSplitterActivate => "启用",
        Text::AutoSplitterDeactivate => "停用",
        Text::AutoSplitterWebsite => "网站",
        Text::AutoSplitterSettingsGroup => "自动分段器设置",
        Text::AutoSplitterIncompatible => "该游戏的自动分段器与 LiveSplit One 不兼容。",
        Text::AutoSplitterUnavailable => "此游戏没有可用的自动分段器。",
    }
}

fn resolve_chinese_traditional(text: Text) -> &'static str {
    match text {
        Text::HotkeySplit => "開始 / 分段",
        Text::HotkeyReset => "重設",
        Text::HotkeyUndoSplit => "撤銷分段",
        Text::HotkeySkipSplit => "跳過分段",
        Text::HotkeyPause => "暫停",
        Text::HotkeyUndoAllPauses => "撤銷全部暫停",
        Text::HotkeyPreviousComparison => "上一個比較",
        Text::HotkeyNextComparison => "下一個比較",
        Text::HotkeyToggleTimingMethod => "切換計時方式",
        Text::PropertyWidth => "寬度",
        Text::PropertyHeight => "高度",
        Text::PropertySplits => "分段",
        Text::PropertySplitsFilter => "LiveSplit 分段 (*.lss)",
        Text::PropertyAutoSave => "重設時保存",
        Text::PropertySaveSplits => "儲存分段",
        Text::PropertyLayout => "版面配置",
        Text::PropertyLayoutFilter => "LiveSplit 版面配置 (*.lsl *.ls1l)",
        Text::PropertyAdvancedStartGameOptions => "進階啟動遊戲選項",
        Text::PropertyGamePath => "遊戲路徑",
        Text::PropertyGamePathFilter => "可執行檔 (*)",
        Text::PropertyGameArguments => "遊戲參數",
        Text::PropertyWorkingDirectory => "工作目錄",
        Text::PropertyWorkingDirectoryFilter => "目錄",
        Text::PropertyGameEnvironmentVars => "遊戲環境變數 (KEY=VALUE)",
        Text::PropertyStartGame => "啟動遊戲",
        Text::AutoSplitterUseLocal => "使用本機自動分段器",
        Text::AutoSplitterLocalFile => "本機自動分段器檔案",
        Text::AutoSplitterLocalFileFilter => "LiveSplit One 自動分段器 (*.wasm)",
        Text::AutoSplitterNoSplitsLoaded => "未載入分段",
        Text::AutoSplitterActivate => "啟用",
        Text::AutoSplitterDeactivate => "停用",
        Text::AutoSplitterWebsite => "網站",
        Text::AutoSplitterSettingsGroup => "自動分段器設定",
        Text::AutoSplitterIncompatible => "此遊戲的自動分段器與 LiveSplit One 不相容。",
        Text::AutoSplitterUnavailable => "此遊戲沒有可用的自動分段器。",
    }
}

fn resolve_japanese(text: Text) -> &'static str {
    match text {
        Text::HotkeySplit => "開始 / スプリット",
        Text::HotkeyReset => "リセット",
        Text::HotkeyUndoSplit => "スプリットを取り消す",
        Text::HotkeySkipSplit => "スプリットをスキップ",
        Text::HotkeyPause => "ポーズ",
        Text::HotkeyUndoAllPauses => "すべてのポーズを取り消す",
        Text::HotkeyPreviousComparison => "前の比較対象",
        Text::HotkeyNextComparison => "次の比較対象",
        Text::HotkeyToggleTimingMethod => "計測方法を切り替え",
        Text::PropertyWidth => "幅",
        Text::PropertyHeight => "高さ",
        Text::PropertySplits => "スプリット",
        Text::PropertySplitsFilter => "LiveSplit スプリット (*.lss)",
        Text::PropertyAutoSave => "リセット時に保存",
        Text::PropertySaveSplits => "スプリットを保存",
        Text::PropertyLayout => "レイアウト",
        Text::PropertyLayoutFilter => "LiveSplit レイアウト (*.lsl *.ls1l)",
        Text::PropertyAdvancedStartGameOptions => "ゲーム起動の詳細オプション",
        Text::PropertyGamePath => "ゲームパス",
        Text::PropertyGamePathFilter => "実行ファイル (*)",
        Text::PropertyGameArguments => "ゲーム引数",
        Text::PropertyWorkingDirectory => "作業ディレクトリ",
        Text::PropertyWorkingDirectoryFilter => "ディレクトリ",
        Text::PropertyGameEnvironmentVars => "ゲーム環境変数 (KEY=VALUE)",
        Text::PropertyStartGame => "ゲームを開始",
        Text::AutoSplitterUseLocal => "ローカル自動スプリッターを使用",
        Text::AutoSplitterLocalFile => "ローカル自動スプリッターファイル",
        Text::AutoSplitterLocalFileFilter => "LiveSplit One Auto Splitter (*.wasm)",
        Text::AutoSplitterNoSplitsLoaded => "スプリットが読み込まれていません",
        Text::AutoSplitterActivate => "有効化",
        Text::AutoSplitterDeactivate => "無効化",
        Text::AutoSplitterWebsite => "ウェブサイト",
        Text::AutoSplitterSettingsGroup => "自動スプリッター設定",
        Text::AutoSplitterIncompatible => "このゲームの自動スプリッターは LiveSplit One と互換性がありません。",
        Text::AutoSplitterUnavailable => "このゲームで利用可能な自動スプリッターはありません。",
    }
}

fn resolve_korean(text: Text) -> &'static str {
    match text {
        Text::HotkeySplit => "시작 / 스플릿",
        Text::HotkeyReset => "리셋",
        Text::HotkeyUndoSplit => "스플릿 되돌리기",
        Text::HotkeySkipSplit => "스플릿 건너뛰기",
        Text::HotkeyPause => "일시정지",
        Text::HotkeyUndoAllPauses => "모든 일시정지 취소",
        Text::HotkeyPreviousComparison => "이전 비교",
        Text::HotkeyNextComparison => "다음 비교",
        Text::HotkeyToggleTimingMethod => "타이밍 방법 전환",
        Text::PropertyWidth => "너비",
        Text::PropertyHeight => "높이",
        Text::PropertySplits => "스플릿",
        Text::PropertySplitsFilter => "LiveSplit 스플릿 (*.lss)",
        Text::PropertyAutoSave => "리셋 시 저장",
        Text::PropertySaveSplits => "스플릿 저장",
        Text::PropertyLayout => "레이아웃",
        Text::PropertyLayoutFilter => "LiveSplit 레이아웃 (*.lsl *.ls1l)",
        Text::PropertyAdvancedStartGameOptions => "게임 시작 고급 옵션",
        Text::PropertyGamePath => "게임 경로",
        Text::PropertyGamePathFilter => "실행 파일 (*)",
        Text::PropertyGameArguments => "게임 인수",
        Text::PropertyWorkingDirectory => "작업 디렉터리",
        Text::PropertyWorkingDirectoryFilter => "디렉터리",
        Text::PropertyGameEnvironmentVars => "게임 환경 변수 (KEY=VALUE)",
        Text::PropertyStartGame => "게임 시작",
        Text::AutoSplitterUseLocal => "로컬 자동 스플리터 사용",
        Text::AutoSplitterLocalFile => "로컬 자동 스플리터 파일",
        Text::AutoSplitterLocalFileFilter => "LiveSplit One Auto Splitter (*.wasm)",
        Text::AutoSplitterNoSplitsLoaded => "스플릿이 로드되지 않음",
        Text::AutoSplitterActivate => "활성화",
        Text::AutoSplitterDeactivate => "비활성화",
        Text::AutoSplitterWebsite => "웹사이트",
        Text::AutoSplitterSettingsGroup => "자동 스플리터 설정",
        Text::AutoSplitterIncompatible => "이 게임의 자동 스플리터는 LiveSplit One과 호환되지 않습니다.",
        Text::AutoSplitterUnavailable => "이 게임에 사용할 수 있는 자동 스플리터가 없습니다.",
    }
}

} // verus!
