use vstd::prelude::*;
use vstd::string::StringSliceAdditionalSpecFns;
use vstd::utf8::encode_utf8;

verus! {

/// The words that may be the secret, in alphabetical order, five letters
/// each, written end to end.
pub const ANSWERS: &'static str = "\
    abackabaseabateabbeyabbotabhorabideabledabodeabortaboutaboveabuseabyssacornacrid\
    actoracuteadageadaptadeptadminadmitadobeadoptadoreadornadultaffixafireafootafoul\
    afteragainagapeagateagentagileagingaglowagonyagoraagreeaheadaideraislealarmalbum\
    alertalgaealibialienalignalikealiveallayalleyallotallowalloyaloftalonealongaloof\
    aloudalphaaltaralteramassamazeamberambleamendamissamityamongampleamplyamuseangel\
    angerangleangryangstanimeankleannexannoyannulanodeanticanvilaortaapartaphidaping\
    apneaappleapplyapronaptlyarborardorarenaarguearisearmoraromaarosearrayarrowarson\
    artsyascotashenasideaskewassayassetatollatoneatticaudioauditaugurauntyavailavert\
    avianavoidawaitawakeawardawareawashawfulawokeaxialaxiomaxionazurebaconbadgebadly\
    bagelbaggybakerbalerbalmybanalbanjobargebaronbasalbasicbasilbasinbasisbastebatch\
    bathebatonbattybawdybayoubeachbeadybeardbeastbeechbeefybefitbeganbegatbegetbegin\
    begunbeingbelchbeliebellebellybelowbenchberetberryberthbesetbetelbevelbezelbible\
    bicepbiddybigotbilgebillybingebingobiomebirchbirthbisonbittyblackbladeblamebland\
    blankblareblastblazebleakbleatbleedbleepblendblessblimpblindblinkblissblitzbloat\
    blockblokeblondbloodbloomblownbluerbluffbluntblurbblurtblushboardboastbobbyboney\
    bongobonusboobyboostboothbootyboozeboozyboraxbornebosombossybotchboughboulebound\
    bowelboxerbracebraidbrainbrakebrandbrashbrassbravebravobrawlbrawnbreadbreakbreed\
    briarbribebrickbridebriefbrinebringbrinkbrinybriskbroadbroilbrokebroodbrookbroom\
    brothbrownbruntbrushbrutebuddybudgebuggybuglebuildbuiltbulgebulkybullybunchbunny\
    burlyburntburstbusedbushybutchbuttebuxombuyerbylawcabalcabbycabincablecacaocache\
    cacticaddycadetcageycairncamelcameocanalcandycannycanoecanoncapercaputcaratcargo\
    carolcarrycarvecastecatchcatercattycaulkcausecavilceasecedarcellochafechaffchain\
    chairchalkchampchantchaoschardcharmchartchasechasmcheapcheatcheckcheekcheerchess\
    chestchickchidechiefchildchilichillchimechinachirpchockchoirchokechordchorechose\
    chuckchumpchunkchurnchutecidercigarcinchcircaciviccivilclackclaimclampclangclank\
    clashclaspclasscleanclearcleatcleftclerkclickcliffclimbclingclinkcloakclockclone\
    closeclothcloudcloutcloveclowncluckcluedclumpclungcoachcoastcobracocoacoloncolor\
    cometcomfycomiccommaconchcondoconiccopsecoralcorercornycouchcoughcouldcountcoupe\
    courtcovencovercovetcoveycowercoylycrackcraftcrampcranecrankcrashcrasscratecrave\
    crawlcrazecrazycreakcreamcredocreedcreekcreepcremecrepecreptcresscrestcrickcried\
    criercrimecrimpcrispcroakcrockcronecronycrookcrosscroupcrowdcrowncrudecruelcrumb\
    crumpcrushcrustcryptcubiccumincuriocurlycurrycursecurvecurvycutiecybercyclecynic\
    daddydailydairydaisydallydancedandydatumdauntdealtdeathdebardebitdebugdebutdecal\
    decaydecordecoydecrydeferdeigndeitydelaydeltadelvedemondemurdenimdensedepotdepth\
    derbydeterdetoxdeucedevildiarydiceydigitdillydimlydinerdingodingydiodedirgedirty\
    discoditchdittodittydiverdizzydodgedodgydogmadoingdollydonordonutdopeydoubtdough\
    dowdydoweldownydowrydozendraftdraindrakedramadrankdrapedrawldrawndreaddreamdress\
    drieddrierdriftdrilldrinkdrivedroitdrolldronedrooldroopdrossdrovedrowndruiddrunk\
    dryerdrylyduchydullydummydumpydunceduskydustydutchduvetdwarfdwelldweltdyingeager\
    eagleearlyeartheaseleateneaterebonyeclatedictedifyeerieegreteightejectekingelate\
    elbowelderelectelegyelfinelideeliteelopeeludeemailembedemberemceeemptyenactendow\
    enemaenemyenjoyennuiensueenterentryenvoyepochepoxyequalequiperaseerecterodeerror\
    eruptessayesteretherethicethosetudeevadeeventeveryevictevokeexactexaltexcelexert\
    exileexistexpelextolextraexulteyingfablefacetfaintfairyfaithfalsefancyfannyfarce\
    fatalfattyfaultfaunafavorfeastfecalfeignfellafelonfemmefemurfenceferalferryfetal\
    fetchfetidfetusfeverfewerfiberfibreficusfieldfiendfieryfifthfiftyfightfilerfilet\
    fillyfilmyfilthfinalfinchfinerfirstfishyfixerfizzyfjordflackflailflairflakeflaky\
    flameflankflareflashflaskfleckfleetfleshflickflierflingflintflirtfloatflockflood\
    floorfloraflossflourfloutflownflufffluidflukeflumeflungflunkflushfluteflyerfoamy\
    focalfocusfoggyfoistfoliofollyforayforceforgeforgoforteforthfortyforumfoundfoyer\
    frailframefrankfraudfreakfreedfreerfreshfriarfriedfrillfriskfritzfrockfrondfront\
    frostfrothfrownfrozefruitfudgefuguefullyfungifunkyfunnyfurorfurryfussyfuzzygaffe\
    gailygamergammagamutgassygaudygaugegauntgauzegavelgawkygayergaylygazergeckogeeky\
    geesegeniegenreghostghoulgiantgiddygipsygirlygirthgivengivergladeglandglareglass\
    glazegleamgleanglideglintgloatglobegloomgloryglossgloveglyphgnashgnomegodlygoing\
    golemgollygonadgonergoodygooeygoofygoosegorgegougegourdgracegradegraftgrailgrain\
    grandgrantgrapegraphgraspgrassgrategravegravygrazegreatgreedgreengreetgriefgrill\
    grimegrimygrindgripegroangroingroomgropegrossgroupgroutgrovegrowlgrowngruelgruff\
    gruntguardguavaguessguestguideguildguileguiltguisegulchgullygumbogummyguppygusto\
    gustygypsyhabithairyhalvehandyhappyhardyharemharpyharryharshhastehastyhatchhater\
    haunthautehavenhavochazelheadyheardheartheathheaveheavyhedgeheftyheisthelixhello\
    henceheronhillyhingehippohippyhitchhoardhobbyhoisthollyhomerhoneyhonorhordehorny\
    horsehotelhotlyhoundhousehovelhoverhowdyhumanhumidhumorhumphhumushunchhunkyhurry\
    huskyhussyhutchhydrohyenahymenhypericilyicingidealidiomidiotidleridylliglooiliac\
    imageimbueimpelimplyinaneinboxincurindexineptinertinferingotinlayinletinnerinput\
    interintroionicirateironyisletissueitchyivoryjauntjazzyjellyjerkyjettyjeweljiffy\
    jointjoistjokerjollyjoustjudgejuicejuicyjumbojumpyjuntajuntojurorkappakarmakayak\
    kebabkhakikinkykioskkittyknackknavekneadkneedkneelkneltknifeknockknollknownkoala\
    krilllabellaborladenladlelagerlancelankylapellapselargelarvalassolatchlaterlathe\
    lattelaughlayerleachleafyleakyleantleaptlearnleaseleashleastleaveledgeleechleery\
    leftylegalleggylemonlemurleperlevelleverlibelliegelightlikenlilaclimbolimitlinen\
    linerlingolipidlitheliverlividllamaloamyloathlobbylocallocuslodgeloftylogiclogin\
    loopylooselorryloserlouselousyloverlowerlowlyloyallucidluckylumenlumpylunarlunch\
    lungelupuslurchluridlustylyinglymphlynchlyricmacawmachomacromadammadlymafiamagic\
    magmamaizemajormakermambomammamammymangamangemangomangymaniamanicmanlymanormaple\
    marchmarrymarshmasonmassematchmateymauvemaximmaybemayormealymeantmeatymeccamedal\
    mediamedicmeleemelonmercymergemeritmerrymetalmetermetromicromidgemidstmightmilky\
    mimicminceminerminimminormintyminusmirthmisermissymochamodalmodelmodemmogulmoist\
    molarmoldymoneymonthmoodymoosemoralmoronmorphmossymotelmotifmotormottomoultmound\
    mountmournmousemouthmovermoviemowermuckymucusmuddymulchmummymunchmuralmurkymushy\
    musicmuskymustymyrrhnadirnaivenannynasalnastynatalnavalnavelneedyneighnerdynerve\
    nevernewernewlynicernicheniecenightninjaninnyninthnoblenoblynoisenoisynomadnoose\
    northnoseynotchnovelnudgenursenuttynylonnymphoakenobeseoccuroceanoctaloctetodder\
    oddlyoffalofferoftenoldenolderoliveombreomegaoniononsetoperaopineopiumopticorbit\
    orderorganotherotteroughtounceoutdoouteroutgoovaryovateovertovineovoidowingowner\
    oxideozonepaddypaganpaintpalerpalsypanelpanicpansypapalpaperparerparkaparryparse\
    partypastapastepastypatchpatiopatsypattypausepayeepayerpeacepeachpearlpecanpedal\
    penalpencepennepennyperchperilperkypeskypestopetalpettyphasephonephonyphotopiano\
    pickypiecepietypiggypilotpinchpineypinkypintopiperpiquepitchpithypivotpixelpixie\
    pizzaplaceplaidplainplaitplaneplankplantplateplazapleadpleatpliedplierpluckplumb\
    plumeplumpplunkplushpoesypointpoisepokerpolarpolkapolyppoochpoppyporchposerposit\
    possepouchpoundpoutypowerprankprawnpreenpresspriceprickpridepriedprimeprimoprint\
    priorprismprivyprizeprobeproneprongproofproseproudproveprowlproxyprudeprunepsalm\
    pubicpudgypuffypulpypulsepunchpupalpupilpuppypureepurerpurgepursepushyputtypygmy\
    quackquailquakequalmquarkquartquashquasiqueenqueerquellqueryquestqueuequickquiet\
    quillquiltquirkquitequotaquotequothrabbirabidracerradarradiiradiorainyraiserajah\
    rallyralphramenranchrandyrangerapidrarerraspyratiorattyravenrayonrazorreachreact\
    readyrealmrearmrebarrebelrebusrebutrecaprecurrecutreedyreferrefitregalrehabreign\
    relaxrelayrelicremitrenalrenewrepayrepelreplyrerunresetresinretchretroretryreuse\
    revelrevuerhinorhymeriderridgeriflerightrigidrigorrinseripenriperrisenriserrisky\
    rivalriverrivetroachroastrobinrobotrockyrodeorogerrogueroomyroostrotorrougerough\
    roundrouserouteroverrowdyrowerroyalruddyruderrugbyrulerrumbarumorrupeeruralrusty\
    sadlysafersaintsaladsallysalonsalsasaltysalvesalvosandysanersappysassysatinsatyr\
    saucesaucysaunasautesavorsavoysavvyscaldscalescalpscalyscampscantscarescarfscary\
    scenescentscionscoffscoldsconescoopscopescorescornscourscoutscowlscramscrapscree\
    screwscrubscrumscubasedanseedysegueseizesemensensesepiaserifserumservesetupseven\
    seversewershackshadeshadyshaftshakeshakyshaleshallshaltshameshankshapeshardshare\
    sharksharpshaveshawlshearsheensheepsheersheetsheikshelfshellshiedshiftshineshiny\
    shireshirkshirtshoalshockshoneshookshootshoreshornshortshoutshoveshownshowyshrew\
    shrubshrugshuckshuntshushshylysiegesievesightsigmasilkysillysincesinewsingesiren\
    sissysixthsixtyskateskierskiffskillskimpskirtskulkskullskunkslackslainslangslant\
    slashslateslavesleeksleepsleetsleptsliceslickslideslimeslimyslingslinksloopslope\
    sloshslothslumpslungslunkslurpslushslylysmacksmallsmartsmashsmearsmellsmeltsmile\
    smirksmitesmithsmocksmokesmokysmotesnacksnailsnakesnakysnaresnarlsneaksneersnide\
    sniffsnipesnoopsnoresnortsnoutsnowysnucksnuffsoapysobersoggysolarsolidsolvesonar\
    sonicsoothsootysorrysoundsouthsowerspacespadespanksparesparkspasmspawnspeakspear\
    speckspeedspellspeltspendspentspermspicespicyspiedspielspikespikyspillspiltspine\
    spinyspirespitesplatsplitspoilspokespoofspookspoolspoonsporesportspoutsprayspree\
    sprigspunkspurnspurtsquadsquatsquibstackstaffstagestaidstainstairstakestalestalk\
    stallstampstandstankstarestarkstartstashstatestavesteadsteakstealsteamsteedsteel\
    steepsteersteinsternstickstiffstillstiltstingstinkstintstockstoicstokestolestomp\
    stonestonystoodstoolstoopstorestorkstormstorystoutstovestrapstrawstraystripstrut\
    stuckstudystuffstumpstungstunkstuntstylesuavesugarsuingsuitesulkysullysumacsunny\
    supersurersurgesurlysushiswamiswampswarmswashswathswearsweatsweepsweetswellswept\
    swiftswillswineswingswirlswishswoonswoopswordsworeswornswungsynodsyruptabbytable\
    tabootacittackytaffytainttakentakertallytalontamertangotangytapertapirtardytarot\
    tastetastytattytaunttawnyteachtearyteaseteddyteethtempotenettenortensetenthtepee\
    tepidterratersetestythankthefttheirthemetherethesethetathickthiefthighthingthink\
    thirdthongthornthosethreethrewthrobthrowthrumthumbthumpthymetiaratibiatidaltiger\
    tighttildetimertimidtipsytitantithetitletoasttodaytoddytokentonaltongatonictooth\
    topaztopictorchtorsotorustotaltotemtouchtoughtoweltowertoxictoxintracetracktract\
    tradetrailtraintraittramptrashtrawltreadtreattrendtriadtrialtribetricetricktried\
    tripetritetrolltrooptropetrouttrovetrucetrucktruertrulytrumptrunktrusstrusttruth\
    trysttubaltubertuliptulletumortunicturbotutortwangtweaktweedtweettwicetwinetwirl\
    twisttwixttyingudderulcerultraumbrauncleuncutunderundidundueunfedunfitunifyunion\
    uniteunityunlitunmetunsetuntieuntilunwedunzipupperupseturbanurineusageusherusing\
    usualusurputileuttervaguevaletvalidvalorvaluevalvevapidvaporvaultvauntveganvenom\
    venuevergeverseversovervevicarvideovigilvigorvillavinylviolaviperviralvirusvisit\
    visorvistavitalvividvixenvocalvodkavoguevoicevoilavomitvotervouchvowelvyingwacky\
    waferwagerwagonwaistwaivewaltzwartywastewatchwaterwaverwaxenwearyweavewedgeweedy\
    weighweirdwelchwelshwenchwhackwhalewharfwheatwheelwhelpwherewhichwhiffwhilewhine\
    whinywhirlwhiskwhitewholewhoopwhosewidenwiderwidowwidthwieldwightwillywimpywince\
    winchwindywiserwispywitchwittywokenwomanwomenwoodywooerwoolywoozywordyworldworry\
    worseworstworthwouldwoundwovenwrackwrathwreakwreckwrestwringwristwritewrongwrote\
    wrungwrylyyachtyearnyeastyieldyoungyouthzebrazestyzonal";

/// The further words that may be guessed but are never the secret, in
/// alphabetical order, written end to end. None of them is among the answers.
pub const PROBES: &'static str = "\
    aahedaarghabacaabaciabaftabashabbesabetsablerabuzzachedachesachooacidsacingacmes\
    acnedacresactedaddedadderadieuadiosadmanadmenadzedaegisaerieagaveagazeaggieaggro\
    agismagistagletagleyagoneaholdaidedaidesailedaimedaimeraioliairedaireralackalary\
    alatealcidalderaldolalephalgalalgasalgidalginaliasalinealkydalkylaloesalohaaloin\
    althoaltosalulaalwayamainamebaameeramensamentamiceamideamidoamigoamineaminoamnio\
    amoleamourampedampulamuckanchoanearaneleanentanionaniseankhsannasannumanoleansae\
    antaeantedantesantisantraantsyanyonapaceapeakaperyaphisapianapishapodsaportappel\
    apsisapteraquasaramearbasarcedarealareasarecaarepaareteargalargilargleargolargon\
    argotariasarielarilsarkedarmedarmetaroidarpenarrasarrisarsisartalartelaruhearums\
    arylsasanaascusasdicashedashesaskedaskeraspenasperaspicassaiasteratiltatlasatman\
    atomsatomyatonyatopyatriaattaraudadaugerauledauntsauraeauralaurasaureiauricautos\
    auxinavastavensaversavgasavionavisoavowsawingawnedaxelsaxileaxilsaxingaxiteaxled\
    axlesaxmanaxmenaxoneayahsazansazideazidoazineazlonazoicazoleazoteazothazukibabas\
    babelbabesbabkababoobabulbabusbaccabaccybacksbackybaddybaffsbaffybagsybahtsbails\
    baitsbaizabakedbakesbalasbaldybaledbalesbalkyballsballybalmsbalsabancobandabands\
    bandybangsbanksbannsbarbsbarbybarcabardobardsbaredbarerbaresbarfsbaricbarksbarky\
    barmybarnsbarnybasanbasedbaserbasesbasksbassobassybastabastibatedbathsbatikbatts\
    battubaudsbaulkbawdsbawlsbawtybayedbaylebazarbazoobeadsbeaksbeamsbeanobeansbears\
    beatsbeausbebopbecapbecksbedewbedimbeedibeefsbeepsbeersbeerybeetsbeigebeigybelay\
    belgabellsbelonbeltsbemadbemixbendsbendybenesbenetbennebennibennybentobentsbergs\
    berylbesombesotbestsbetasbettabewigbezilbhangbhootbialibialybibbsbidedbiderbidet\
    bieldbiffsbiffybifidbiggybightbijoubikedbikerbikesbilbobilbybilesbilgybilksbills\
    bimahbindibindsbinitbiogsbiontbiotabipodbirdsbirlebirosbirrsbirsebisesbisksbiter\
    bitesbitsybizesblabsblaffblahsblainblamsblaseblateblatsblawnblawsblaysblebsblech\
    blentblertblestbletsbleysbliniblinyblipsbliteblobsblocsblogsbloopblotsblowsblubs\
    bludebludsbluesbluetblueyblumeblursblypeboabsboaksboarsboartboatsbobacboccebocci\
    bochebodedbodesbodgeboffoboffsbogeyboggybogieboglebogusboheaboilsboingboinkboite\
    bokehbolarbolasbolesbollsboltsbolusbombebombsboncebondsbonedbonesbongsbonnybonze\
    booedboofybooksbookyboomsboomyboonsboorsboosybootsboredborerboresbotelbothybouse\
    bousyboutsbovidbowedbowerbowlsbowseboxedboxenboyarboyosbraaibrachbractbradsbrags\
    bransbratsbravabrawsbraxybraysbrazabrazebrevebrewsbriesbrigsbrimsbrissbrithbritt\
    brochbrockbromebromobroncbrosebrosybrowsbruinbruitbrumebrungbubalbubbabubbybucks\
    buffabuffibuffobuffsbuffybulbsbulksbullabullsbumphbumpsbuncobundsbungsbunkobunks\
    buntsbunyabuoysbuppyburanburbsburgsburkaburkeburlsburnsburpsburroburrsbursabusby\
    bushibustsbustybuttsbutylbuzzybwanabyresbyrlsbytesbywaycabercabobcacascadescadge\
    cadiscadrecaecacafescaffscagedcagercagescagotcahowcaidscainscairdcajoncakedcakes\
    calfscalifcalixcalkscallacallscalmscaloscalvecalyxcamancamascamescamiscampocamps\
    campycanedcanercanescanidcannacansocantocantscapedcapescapizcaponcaposcarbocards\
    caredcarercarescarkscarlecarnscarnycarobcarpscarsecartecartscarvycasascasedcases\
    caskscaskycastscasuscatescauldcauricavedcavercavescaviecawedcawkscededcedercedes\
    ceibaceiliceilscelebcellacellicellscelomcensecentocentsceorlcepescerciceredceres\
    ceriacericceroscestacestichadschaischalschamschanachangchapechapschaptcharachare\
    charkcharrcharscharychatschawschayscheepchefschelachemochertchethchevychewschiao\
    chiaschicachichchicochicschielchikschilechimbchimpchinochinschipschirochirrchiru\
    chitschivychizzchocochocschokochokycholichompchonschookchoonchopschottchoutchoux\
    chowkchowschubschufachuffchugschumschurlchurrchusechylechymecibolciliacimexcinct\
    cinescionscippicircscirescirriciscocissycistscitalcitedcitercitescivetciviecivvy\
    clachcladecladsclaesclagsclameclamsclansclapsclaptclaroclartclaryclastclatsclaut\
    claveclaviclawsclayscleekclefsclegscleikclemsclepecleptcleveclewscliedcliesclift\
    climeclineclintclipeclipscliptcloamclodscloffclogsclokeclombclompclonkclonscloop\
    clootclopscloteclotsclourclousclowscloysclozeclubscluesclueyclunkclypecnidacoact\
    coadycoalacoalscoalycoaptcoarbcoaticoatscobbycobiacoblecobzacocascoccicockycocos\
    codascodeccodedcodencodercodescodexcodoncoedscoffscogiecogoncoguecohabcohoecohog\
    cohoscoifscoigncoilscoinscokedcokescolascolbycoldscoledcolescoleycoliccolincolly\
    cologcoltscolzacomaecomalcomascombecombicombocombscombycomercomescomixcommocommy\
    compocompscomptcomtecomusconedconesconeyconfscongacongeconiaconinconksconkyconne\
    connscontecontoconusconvocooedcooeecooercooeycoofscookscookycoolscoombcoomscoomy\
    coopscooptcoostcootscopalcopaycopedcopencopercopescopracopsycoquicoramcorbecorby\
    cordscoredcorescoreycorgicoriacorkscorkycormscornicornocornscornucorpscorsecorso\
    coseccosedcosescosetcoseycosiecostacostecostscotancotedcotescothscottacottscoude\
    coupscourbcourdcourecourscoutacouthcovedcovescovincowalcowancowedcowkscowlscowps\
    cowrycoxaecoxalcoxedcoxescoxibcoyaucoyedcoyercoypucozedcozencozescozeycoziecraal\
    crabscragscraiccraigcrakecramecramscranscrapecrarecrawscrayscredscreelcreescrems\
    crenacrepscrepycrewecrewscriascribscriescrimscrinecrioscrisecrithcritscrocicrocs\
    croftcrogscrombcromecronkcronscroolcrooncropscrorecrostcroutcrowscrozecruckcrudo\
    crudscrudycruescruetcruftcrunkcruorcruracrusecrusycruvecrwthcryerctenecubbycubeb\
    cubedcubercubescubitcuddycuffocuffscuifscuingcuishcuitscukesculchculetculexculls\
    cullyculmsculpaculticultscumeccundycuneicunitcupelcupidcuppacuppycuratcurbscurch\
    curdscurdycuredcurercurescuretcurfscuriacuriecurlicurlscurnscurnycurrscursicurst\
    cuseccushycuskscuspscuspycussocutchcutercutescuteycutincutiscuttocuttycutupcuvee\
    cwtchcyanocyanscycadcycascyclocydercylixcymaecymarcymascymescymolcystscytescyton\
    czarsdacesdadosdalesdamesdamnsdampsdareddarerdaresdarksdarnsdartsdateddaterdates\
    daubsdawnsdazeddazesdealsdeansdearsdebtsdecksdeedsdeemsdeepsdeersdelisdellsdemes\
    demosdentsdermsdesksdeweddialsdiceddicerdicesdietsdikeddikesdillsdimerdimesdined\
    dinesdingsdintsdirerdirksdirtsdiscsdiveddivesdocksdodosdoersdogesdoleddolesdolls\
    doltsdomeddomesdoomsdoorsdopeddoperdopesdorksdormsdoseddoserdosesdoteddoterdotes\
    dovesdownsdozeddozerdozesdrabsdragsdramsdrawsdraysdregsdribsdripsdropsdrubsdrugs\
    drumsdualsducksductsdudesduelsduetsduffsdukeddukesdumbsdumpsdunesdungsdunksduped\
    duperdupesdusksdustsdyadsdyersearedearlsearnseasedeasereaseseastsebbedechosedged\
    edgeredgeseditseggedemirsemitsendedepicserredeurosevensevilsexamsexecsexitsexpos\
    facedfacerfacesfactsfadedfaderfadesfailsfairsfakedfakerfakesfallsfamedfamesfangs\
    faredfarerfaresfarmsfastsfatedfatesfaunsfawnsfazedfazesfearsfeatsfeedsfeelsfells\
    feltsfendsfernsfestsfetasfetedfetesfeudsfiatsfiefsfiferfifesfiledfilesfillsfilms\
    findsfinedfinesfinksfiredfirerfiresfirmsfistsfiverfivesfixedflabsflagsflaksflans\
    flapsflatsflawsfleasfleerfleesflewsflipsflitsfloesflogsflopsflowsflubsfluesfoals\
    foamsfoilsfoldsfolksfondsfontsfoodsfoolsfootsfordsforesforksformsfortsfoulsfours\
    fowlsfoxedfragsfrapsfratsfraysfreesfretsfritsfrogsfryerfuelsfumedfumerfumesfunds\
    funksfurlsfusedfusesgaffsgagesgainsgaitsgalasgalesgallsgamedgamesgangsgaolsgaped\
    gapergapesgarbsgaspsgatedgatesgaudsgawksgawpsgazedgazesgearsgeeksgeldsgenesgents\
    germsghatsgheesgibedgibergibesgiftsgildsgillsgiltsgirdsgirlsgirtsgistsgivesglads\
    glamsglensglimsglobsglomsglopsglowsgluedgluergluesglugsglutsgnarsgnatsgnawsgoads\
    goalsgoatsgobosgoersgoldsgolfsgongsgoofsgoonsgoredgoresgoutsgownsgrabsgramsgrans\
    graysgreysgridsgrinsgripsgritsgrogsgrotsgrowsgrubsgucksguffsgulfsgullsgulpsgunks\
    gurusgustsgyreshackshaftshailshairshakeshaleshallshaloshaltshandshangshankshares\
    harksharmsharpshartshaspshatedhateshaulshawkshazedhazerhazesheadshealsheapshears\
    heatshecksheedsheelsheftsheirshellshelmshelpshempsherbsherdsheroshewedhewerhexed\
    hiderhideshighshikedhikerhikeshillshiltshindshintshiredhirerhireshivedhiveshoars\
    hocksholdsholedholesholmsholtshomedhomeshonedhonerhoneshonkshoodshoofshookshoops\
    hootshopedhoperhopeshornshosedhoseshostshourshoveshowlshuckshuffshugerhulashulks\
    hullshumpshunkshuntshurlshurtshuskshymnshypedhypesiciericonsideasidledidlesidols\
    ikonsinfosinkedinkerinnediotasirkedironsislesitemsjacksjadedjadesjailsjakesjambs\
    janesjapedjapesjarlsjavasjawedjeansjeepsjeersjellsjerksjestsjibesjiltsjinnsjived\
    jiverjivesjocksjohnsjoinsjokedjokesjoltsjowlsjudosjukesjumpsjunksjustsjuteskales\
    kanaskartskataskayoskeelskeenskeepskelpskenoskepiskerbskerfskernskeyedkhanskicks\
    killskilnskiloskiltskindskingskinkskinoskirkskirnskitedkiterkiteskithskivaskiwis\
    knapskneesknitsknobsknotskoanskohlskolaskookskotoskudoskuruskyatslacedlacerlaces\
    lacksladedladerladeslairslakeslakhslamaslambslamedlamerlameslampslandslaneslanks\
    lardslarkslasedlaserlaseslastslathslaudslavaslavedlaverlaveslawnslazedlazesleads\
    leafsleaksleansleapsleeksleersleftslendsliarslickslidoslienslierslieusliferlifts\
    likedlikerlikesliltslimbslimedlimeslimnslimoslimpslinedlineslingslinkslintslions\
    liraslireslispslistsliterliteslivedlivesloadsloafsloamsloanslobedlobeslockslocos\
    lodesloftslogeslogosloinslollslonerlongslooksloomsloonsloopslootslopedloperlopes\
    lordsloresloutslovedloveslubedlubeslucksluffslugerlugeslullslumpslunasluneslungs\
    lunksluredlurerlureslurkslustsluteslyresmacedmacesmacksmagesmaidsmailsmaimsmains\
    makesmalesmallsmaltsmamasmanesmaresmarksmarlsmartsmasermasksmastsmatedmatermates\
    mathsmaulsmazermazesmeadsmealsmeansmeatsmeedsmeetsmeldsmeltsmemosmendsmenusmeows\
    meresmesasmetedmetesmewedmewlsmicasmiensmiffsmikedmikesmilermilesmilksmillsmilos\
    mimedmimermimesminasmindsminedminesminisminksmintsmiredmiresmisosmistsmitermites\
    mittsmixedmixermoansmoatsmocksmodesmoilsmoldsmolesmollsmoltsmonksmonosmoodsmooed\
    mooksmoonsmoorsmootsmopedmopermopesmornsmortsmotesmothsmovedmovesmowedmucksmuffs\
    mulesmullsmurksmusedmusermusesmusksmustsmutedmutermutesmuttsmynasmythsnailsnamed\
    namernamesnapesnardsnarksnavesneapsnecksneedsneemsneonsnerdsnestsnettsnicksnines\
    niternitesnixednodesnoelsnomesnooksnoonsnormsnosednosesnotednoternotesnounsnovas\
    nudernukednukesnullsnumbsoaredoathsobeysobitsoboesocherodorsogledogleroglesogres\
    oiledoileroinksokaysokrasoleosomensomitsoohedoozedoozesopalsopensoptedoralsorbed\
    orcasordososierovensoversownedpacedpacerpacespackspactspagedpagerpagespailspains\
    pairspaledpalespallspalmspanespangspantspapasparaspardsparedparesparksparrsparts\
    paterpatespathspavedpaverpavespawedpawlspawnspayedpeakspealspearspeatspeckspeeks\
    peelspeenspeepspeerspelfspeltspendspeonsperkspermspestspicaspickspierspikaspiker\
    pikespiledpilespillspinedpinespingspinkspintspionspipedpipespitaspithsplansplats\
    playspleasplebspliesplodsplopsplotsplowsploysplugsplumspoemspoetspokedpokespoled\
    polespollspolospomespompspondsponespongspoolspoopspopesporedporesporksportsposed\
    postspoufspourspoutspramsprauspraysprepspreysprigsprimsprodsprofspromspropsprows\
    puckspuffspukaspulaspulespullspulpspumaspumpspunkspuntspupaspurispurlspurrsputts\
    pyresquadsquagsquaisquaysquidsquinsquipsquitsquodsracedracesracksraftsragasraged\
    ragerragesraidsrailsrainsrakedrakerrakesralesrampsrandsranisranksrantsraredrasps\
    ratedraterratesravedraverravesrawerrayedrazedrazerrazesreadsreamsreapsrearsredos\
    reedsreefsreeksreelsreinsrendsrentsreposrestsrheasrialsricedricerricesricksrides\
    rielsriffsriftsriledrilesrillsrimerrimesrindsringsrinksriotsritesrivesroadsroams\
    roansroarsrobedrobesrocksroilsrolesrollsrompsroodsroofsrooksroomsrootsropedroper\
    ropesrotasrotesrotisrouesroutsrovedrovesrowedrubesrucksruddsruffsruinsruledrules\
    rumpsrunesrungsruntsrusksrustsryotssabersackssafessagassagersagessagossailssakes\
    sakissalessalpssaltssampssandssardssarissarkssatedsatessatissavedsaversavessawed\
    sawersayerscabsscadsscamsscansscarsscatsscopsscowsscudsscumsscutssealsseamssears\
    seatssectsseedsseeksseelsseemsseepsseerssellssemissendsseptsseresserfssettssewed\
    sexersextsshadsshagsshahsshamsshawsshayssheasshedsshewsshimsshinsshipsshivsshoed\
    shoesshogsshoosshopsshotsshowsshulsshunsshutsshyersialssickssidedsidessiftssighs\
    signssildssilkssillssilossiltssinessingssinkssiredsiressitedsitessizedsizerskats\
    skegsskepsskewsskidsskimsskinsskipsskitsskuasslabsslagsslamsslapsslatsslawsslays\
    sledsslewsslierslimsslipsslitsslobssloesslogsslopsslotsslowsslubssluedsluesslugs\
    slumsslurssmewssmitssmogssmugssnagssnapssnipssnitssnobssnowssnubssnugssoakssoaps\
    soarssockssodassofassoilssokessolassolessolossomassonessongssookssootssophssoras\
    sorbssordssorersoressornssortssoukssoulssoupssourssowedspanssparsspatsspaysspecs\
    spewsspinsspitsspivsspotsspudsspuesspursstabsstagsstarsstatsstaysstemsstepsstets\
    stewsstirsstoasstopsstowsstubsstudsstunsstyessuckssuerssuetssuitssulkssumossumps\
    surassurdssurfsswabsswagsswansswapsswatsswaysswigsswimsswobsswopsswotssyncstabus\
    tackstacostactstaelstahrstailstakastakestalastalcstalertalestalkstamedtamestamps\
    tangstankstapastapedtapestaredtarestarnstarostarpstartstasertaskstaxedtaxertaxis\
    teakstealsteamstearsteatsteemsteensteffstelastelestellstempstendstentstermsterns\
    teststethsthawsthewsthinsthousthudsthugstickstidestierstiffstikestikistiledtiler\
    tilestillstiltstimedtimestinedtinestingstintstipistiredtirestirlstirostitertoads\
    toffstoftstofustogastoilstokedtokertokestolastolestollstolustombstomestonedtoner\
    tonestongstonkstoolstoomstoonstootstopertopestophstopistorastorcstorestorostorrs\
    tortstotedtotertotestourstoutstowedtownstoyedtoyertradstramstrapstraystreedtrees\
    trefstrekstretstreystrigstrimstriostripstrodstrogstropstrotstrowstroystruedtrues\
    trugstsarstubastubedtubestuckstufastuffstuftstulestumpstunastunedtunertunestungs\
    turfsturnstuskstutustweestwigstwinstwitstyeestyerstykestynestypedtypestypostyres\
    tyrostzarsudonsulansulnasulvasumberumbosummasunausundosunitsupdosuppedureasurged\
    urgerurgesusersuveasvailsvairsvalesvampsvanesvangsvarasvasasvasesvatusvealsveeps\
    veersveilsveinsveldsvendsventsverbsvertsvestsvexedvialsvibesvicesviewsvilervills\
    vinasvinesvinosviolsvirlsvisasvisesvitasvivasvoidsvolesvoltsvotedvotesvowedvower\
    vrowswackswadedwaderwadeswadiswaffswaftswagedwageswaifswailswainswaitswakedwaker\
    wakeswalerwaleswalkswallswandswanedwaneswantswardswareswarmswarnswarpswartswasps\
    wattswavedwaveswaxedwaxerwealsweanswearsweedsweeksweensweepsweftsweirswekaswelds\
    wellsweltswendswestswhamswhapswhetswhewswheyswhidswhigswhimswhinswhipswhirswhits\
    whoaswhopswhupswickswifeswildswiledwileswillswiltswimpswindswinedwineswingswinks\
    winoswipedwiperwipeswiredwirerwireswisedwiseswispswistswiteswithswiveswoadswolds\
    wolfswombswonkswontswoodswoofswoolswoonswordsworkswormswortswrapswrenswritswryer\
    wyndswynnswytesxystsyacksyageryagisyangsyanksyardsyaresyarnsyaupsyawedyawlsyawns\
    yawpsyeansyearsyeggsyellsyelpsyipesyogasyoghsyogisyokedyokesyolksyoresyowlsyuans\
    yucasyucksyugasyulesyurtszarfszealszebuszeinszeroszestszetaszincszineszingszoeas\
    zonedzonerzoneszonkszoomszoonszoriszymes";

/// A shorter choice of further words that may be guessed, for play without
/// the rarest words. Each of them is among the longer choice too.
pub const ALT_PROBES: &'static str = "\
    aahedablerachedactedaddedadderadzedaidedailedaimedairedaireralderampedantedarced\
    arkedarmedashedaskedaskerasteraugerauledawnedaxledbakedbaledbaredbarerbasedbaser\
    batedbayedbidedbiderbikedbikerbiterbodedbonedboredborerbowedbowerboxedcabercaged\
    cagercakedcanedcanercapedcaredcarercasedcavedcavercawedcededcedercitedcitercoded\
    codercomerconedcooedcooercopedcopercoredcowedcoyercubedcuredcurercuterdareddarer\
    dateddaterdazeddeweddiceddicerdikeddimerdineddirerdiveddoleddomeddopeddoperdosed\
    doserdoteddoterdozeddozerdukeddupedduperearedeasedeaserebbededgededgereggedended\
    erredfacedfacerfadedfaderfakedfakerfamedfaredfarerfatedfazedfetedfiferfiledfined\
    firedfirerfiverfixedfleerfoxedfryerfumedfumerfusedgamedgapedgapergatedgazedgibed\
    gibergluedgluergoredhatedhazedhazerhewedhewerhexedhiderhikedhikerhiredhirerhived\
    holedhomedhonedhonerhopedhoperhosedhugerhypedicieridledinkedinkerinnedirkedjaded\
    japedjawedjivedjiverjokedkeyedkitedkiterlacedlacerladedladerlamedlamerlasedlaser\
    lavedlaverlazedliferlikedlikerlimedlinedliterlivedlobedlonerlopedloperlovedlubed\
    lugerluredlurermacedmasermatedmatermazermetedmewedmikedmilermimedmimerminedmired\
    mitermixedmixermooedmopedmopermovedmowedmusedmusermutedmuternamednamerniternixed\
    nosednotednoternudernukedoaredocherogledogleroiledoileroohedoozedoptedorbedosier\
    ownedpacedpacerpagedpagerpaledparedpaterpavedpaverpawedpayedpikerpiledpinedpiped\
    pokedpoledporedposedracedragedragerrakedrakerraredratedraterravedraverrawerrayed\
    razedrazerricedricerriledrimerrobedropedroperrovedrowedruledsabersagersatedsaved\
    saversawedsawersayersewedsexershoedshyersidedsiredsitedsizedsizersliersluedsorer\
    sowedtalertamedtapedtaredtarestasertaxedtaxertiledtilertimedtinedtiredtitertoked\
    tokertonedtonertopertotedtotertowedtoyedtoyertreedtruedtubedtunedtunertypedumber\
    uppedurgedurgervexedvilervotedvowedvowerwadedwaderwagedwakedwakerwalerwanedwaved\
    waxedwaxerwiledwinedwipedwiperwiredwirerwisedwryeryageryawedyokedzonedzoner";

proof fn lemma_encoding_length(chars: Seq<char>)
    ensures
        encode_utf8(chars).len() >= chars.len(),
    decreases chars.len(),
{
    if chars.len() > 0 {
        lemma_encoding_length(chars.drop_first());
    }
}

/// The answers hold at least one word. The text is opaque until its literal
/// is revealed, so the literal is repeated here.
pub proof fn lemma_answers_exist()
    ensures
        ANSWERS.spec_bytes().len() >= 5,
{
    reveal_strlit("\
        abackabaseabateabbeyabbotabhorabideabledabodeabortaboutaboveabuseabyssacornacrid\
        actoracuteadageadaptadeptadminadmitadobeadoptadoreadornadultaffixafireafootafoul\
        afteragainagapeagateagentagileagingaglowagonyagoraagreeaheadaideraislealarmalbum\
        alertalgaealibialienalignalikealiveallayalleyallotallowalloyaloftalonealongaloof\
        aloudalphaaltaralteramassamazeamberambleamendamissamityamongampleamplyamuseangel\
        angerangleangryangstanimeankleannexannoyannulanodeanticanvilaortaapartaphidaping\
        apneaappleapplyapronaptlyarborardorarenaarguearisearmoraromaarosearrayarrowarson\
        artsyascotashenasideaskewassayassetatollatoneatticaudioauditaugurauntyavailavert\
        avianavoidawaitawakeawardawareawashawfulawokeaxialaxiomaxionazurebaconbadgebadly\
        bagelbaggybakerbalerbalmybanalbanjobargebaronbasalbasicbasilbasinbasisbastebatch\
        bathebatonbattybawdybayoubeachbeadybeardbeastbeechbeefybefitbeganbegatbegetbegin\
        begunbeingbelchbeliebellebellybelowbenchberetberryberthbesetbetelbevelbezelbible\
        bicepbiddybigotbilgebillybingebingobiomebirchbirthbisonbittyblackbladeblamebland\
        blankblareblastblazebleakbleatbleedbleepblendblessblimpblindblinkblissblitzbloat\
        blockblokeblondbloodbloomblownbluerbluffbluntblurbblurtblushboardboastbobbyboney\
        bongobonusboobyboostboothbootyboozeboozyboraxbornebosombossybotchboughboulebound\
        bowelboxerbracebraidbrainbrakebrandbrashbrassbravebravobrawlbrawnbreadbreakbreed\
        briarbribebrickbridebriefbrinebringbrinkbrinybriskbroadbroilbrokebroodbrookbroom\
        brothbrownbruntbrushbrutebuddybudgebuggybuglebuildbuiltbulgebulkybullybunchbunny\
        burlyburntburstbusedbushybutchbuttebuxombuyerbylawcabalcabbycabincablecacaocache\
        cacticaddycadetcageycairncamelcameocanalcandycannycanoecanoncapercaputcaratcargo\
        carolcarrycarvecastecatchcatercattycaulkcausecavilceasecedarcellochafechaffchain\
        chairchalkchampchantchaoschardcharmchartchasechasmcheapcheatcheckcheekcheerchess\
        chestchickchidechiefchildchilichillchimechinachirpchockchoirchokechordchorechose\
        chuckchumpchunkchurnchutecidercigarcinchcircaciviccivilclackclaimclampclangclank\
        clashclaspclasscleanclearcleatcleftclerkclickcliffclimbclingclinkcloakclockclone\
        closeclothcloudcloutcloveclowncluckcluedclumpclungcoachcoastcobracocoacoloncolor\
        cometcomfycomiccommaconchcondoconiccopsecoralcorercornycouchcoughcouldcountcoupe\
        courtcovencovercovetcoveycowercoylycrackcraftcrampcranecrankcrashcrasscratecrave\
        crawlcrazecrazycreakcreamcredocreedcreekcreepcremecrepecreptcresscrestcrickcried\
        criercrimecrimpcrispcroakcrockcronecronycrookcrosscroupcrowdcrowncrudecruelcrumb\
        crumpcrushcrustcryptcubiccumincuriocurlycurrycursecurvecurvycutiecybercyclecynic\
        daddydailydairydaisydallydancedandydatumdauntdealtdeathdebardebitdebugdebutdecal\
        decaydecordecoydecrydeferdeigndeitydelaydeltadelvedemondemurdenimdensedepotdepth\
        derbydeterdetoxdeucedevildiarydiceydigitdillydimlydinerdingodingydiodedirgedirty\
        discoditchdittodittydiverdizzydodgedodgydogmadoingdollydonordonutdopeydoubtdough\
        dowdydoweldownydowrydozendraftdraindrakedramadrankdrapedrawldrawndreaddreamdress\
        drieddrierdriftdrilldrinkdrivedroitdrolldronedrooldroopdrossdrovedrowndruiddrunk\
        dryerdrylyduchydullydummydumpydunceduskydustydutchduvetdwarfdwelldweltdyingeager\
        eagleearlyeartheaseleateneaterebonyeclatedictedifyeerieegreteightejectekingelate\
        elbowelderelectelegyelfinelideeliteelopeeludeemailembedemberemceeemptyenactendow\
        enemaenemyenjoyennuiensueenterentryenvoyepochepoxyequalequiperaseerecterodeerror\
        eruptessayesteretherethicethosetudeevadeeventeveryevictevokeexactexaltexcelexert\
        exileexistexpelextolextraexulteyingfablefacetfaintfairyfaithfalsefancyfannyfarce\
        fatalfattyfaultfaunafavorfeastfecalfeignfellafelonfemmefemurfenceferalferryfetal\
        fetchfetidfetusfeverfewerfiberfibreficusfieldfiendfieryfifthfiftyfightfilerfilet\
        fillyfilmyfilthfinalfinchfinerfirstfishyfixerfizzyfjordflackflailflairflakeflaky\
        flameflankflareflashflaskfleckfleetfleshflickflierflingflintflirtfloatflockflood\
        floorfloraflossflourfloutflownflufffluidflukeflumeflungflunkflushfluteflyerfoamy\
        focalfocusfoggyfoistfoliofollyforayforceforgeforgoforteforthfortyforumfoundfoyer\
        frailframefrankfraudfreakfreedfreerfreshfriarfriedfrillfriskfritzfrockfrondfront\
        frostfrothfrownfrozefruitfudgefuguefullyfungifunkyfunnyfurorfurryfussyfuzzygaffe\
        gailygamergammagamutgassygaudygaugegauntgauzegavelgawkygayergaylygazergeckogeeky\
        geesegeniegenreghostghoulgiantgiddygipsygirlygirthgivengivergladeglandglareglass\
        glazegleamgleanglideglintgloatglobegloomgloryglossgloveglyphgnashgnomegodlygoing\
        golemgollygonadgonergoodygooeygoofygoosegorgegougegourdgracegradegraftgrailgrain\
        grandgrantgrapegraphgraspgrassgrategravegravygrazegreatgreedgreengreetgriefgrill\
        grimegrimygrindgripegroangroingroomgropegrossgroupgroutgrovegrowlgrowngruelgruff\
        gruntguardguavaguessguestguideguildguileguiltguisegulchgullygumbogummyguppygusto\
        gustygypsyhabithairyhalvehandyhappyhardyharemharpyharryharshhastehastyhatchhater\
        haunthautehavenhavochazelheadyheardheartheathheaveheavyhedgeheftyheisthelixhello\
        henceheronhillyhingehippohippyhitchhoardhobbyhoisthollyhomerhoneyhonorhordehorny\
        horsehotelhotlyhoundhousehovelhoverhowdyhumanhumidhumorhumphhumushunchhunkyhurry\
        huskyhussyhutchhydrohyenahymenhypericilyicingidealidiomidiotidleridylliglooiliac\
        imageimbueimpelimplyinaneinboxincurindexineptinertinferingotinlayinletinnerinput\
        interintroionicirateironyisletissueitchyivoryjauntjazzyjellyjerkyjettyjeweljiffy\
        jointjoistjokerjollyjoustjudgejuicejuicyjumbojumpyjuntajuntojurorkappakarmakayak\
        kebabkhakikinkykioskkittyknackknavekneadkneedkneelkneltknifeknockknollknownkoala\
        krilllabellaborladenladlelagerlancelankylapellapselargelarvalassolatchlaterlathe\
        lattelaughlayerleachleafyleakyleantleaptlearnleaseleashleastleaveledgeleechleery\
        leftylegalleggylemonlemurleperlevelleverlibelliegelightlikenlilaclimbolimitlinen\
        linerlingolipidlitheliverlividllamaloamyloathlobbylocallocuslodgeloftylogiclogin\
        loopylooselorryloserlouselousyloverlowerlowlyloyallucidluckylumenlumpylunarlunch\
        lungelupuslurchluridlustylyinglymphlynchlyricmacawmachomacromadammadlymafiamagic\
        magmamaizemajormakermambomammamammymangamangemangomangymaniamanicmanlymanormaple\
        marchmarrymarshmasonmassematchmateymauvemaximmaybemayormealymeantmeatymeccamedal\
        mediamedicmeleemelonmercymergemeritmerrymetalmetermetromicromidgemidstmightmilky\
        mimicminceminerminimminormintyminusmirthmisermissymochamodalmodelmodemmogulmoist\
        molarmoldymoneymonthmoodymoosemoralmoronmorphmossymotelmotifmotormottomoultmound\
        mountmournmousemouthmovermoviemowermuckymucusmuddymulchmummymunchmuralmurkymushy\
        musicmuskymustymyrrhnadirnaivenannynasalnastynatalnavalnavelneedyneighnerdynerve\
        nevernewernewlynicernicheniecenightninjaninnyninthnoblenoblynoisenoisynomadnoose\
        northnoseynotchnovelnudgenursenuttynylonnymphoakenobeseoccuroceanoctaloctetodder\
        oddlyoffalofferoftenoldenolderoliveombreomegaoniononsetoperaopineopiumopticorbit\
        orderorganotherotteroughtounceoutdoouteroutgoovaryovateovertovineovoidowingowner\
        oxideozonepaddypaganpaintpalerpalsypanelpanicpansypapalpaperparerparkaparryparse\
        partypastapastepastypatchpatiopatsypattypausepayeepayerpeacepeachpearlpecanpedal\
        penalpencepennepennyperchperilperkypeskypestopetalpettyphasephonephonyphotopiano\
        pickypiecepietypiggypilotpinchpineypinkypintopiperpiquepitchpithypivotpixelpixie\
        pizzaplaceplaidplainplaitplaneplankplantplateplazapleadpleatpliedplierpluckplumb\
        plumeplumpplunkplushpoesypointpoisepokerpolarpolkapolyppoochpoppyporchposerposit\
        possepouchpoundpoutypowerprankprawnpreenpresspriceprickpridepriedprimeprimoprint\
        priorprismprivyprizeprobeproneprongproofproseproudproveprowlproxyprudeprunepsalm\
        pubicpudgypuffypulpypulsepunchpupalpupilpuppypureepurerpurgepursepushyputtypygmy\
        quackquailquakequalmquarkquartquashquasiqueenqueerquellqueryquestqueuequickquiet\
        quillquiltquirkquitequotaquotequothrabbirabidracerradarradiiradiorainyraiserajah\
        rallyralphramenranchrandyrangerapidrarerraspyratiorattyravenrayonrazorreachreact\
        readyrealmrearmrebarrebelrebusrebutrecaprecurrecutreedyreferrefitregalrehabreign\
        relaxrelayrelicremitrenalrenewrepayrepelreplyrerunresetresinretchretroretryreuse\
        revelrevuerhinorhymeriderridgeriflerightrigidrigorrinseripenriperrisenriserrisky\
        rivalriverrivetroachroastrobinrobotrockyrodeorogerrogueroomyroostrotorrougerough\
        roundrouserouteroverrowdyrowerroyalruddyruderrugbyrulerrumbarumorrupeeruralrusty\
        sadlysafersaintsaladsallysalonsalsasaltysalvesalvosandysanersappysassysatinsatyr\
        saucesaucysaunasautesavorsavoysavvyscaldscalescalpscalyscampscantscarescarfscary\
        scenescentscionscoffscoldsconescoopscopescorescornscourscoutscowlscramscrapscree\
        screwscrubscrumscubasedanseedysegueseizesemensensesepiaserifserumservesetupseven\
        seversewershackshadeshadyshaftshakeshakyshaleshallshaltshameshankshapeshardshare\
        sharksharpshaveshawlshearsheensheepsheersheetsheikshelfshellshiedshiftshineshiny\
        shireshirkshirtshoalshockshoneshookshootshoreshornshortshoutshoveshownshowyshrew\
        shrubshrugshuckshuntshushshylysiegesievesightsigmasilkysillysincesinewsingesiren\
        sissysixthsixtyskateskierskiffskillskimpskirtskulkskullskunkslackslainslangslant\
        slashslateslavesleeksleepsleetsleptsliceslickslideslimeslimyslingslinksloopslope\
        sloshslothslumpslungslunkslurpslushslylysmacksmallsmartsmashsmearsmellsmeltsmile\
        smirksmitesmithsmocksmokesmokysmotesnacksnailsnakesnakysnaresnarlsneaksneersnide\
        sniffsnipesnoopsnoresnortsnoutsnowysnucksnuffsoapysobersoggysolarsolidsolvesonar\
        sonicsoothsootysorrysoundsouthsowerspacespadespanksparesparkspasmspawnspeakspear\
        speckspeedspellspeltspendspentspermspicespicyspiedspielspikespikyspillspiltspine\
        spinyspirespitesplatsplitspoilspokespoofspookspoolspoonsporesportspoutsprayspree\
        sprigspunkspurnspurtsquadsquatsquibstackstaffstagestaidstainstairstakestalestalk\
        stallstampstandstankstarestarkstartstashstatestavesteadsteakstealsteamsteedsteel\
        steepsteersteinsternstickstiffstillstiltstingstinkstintstockstoicstokestolestomp\
        stonestonystoodstoolstoopstorestorkstormstorystoutstovestrapstrawstraystripstrut\
        stuckstudystuffstumpstungstunkstuntstylesuavesugarsuingsuitesulkysullysumacsunny\
        supersurersurgesurlysushiswamiswampswarmswashswathswearsweatsweepsweetswellswept\
        swiftswillswineswingswirlswishswoonswoopswordsworeswornswungsynodsyruptabbytable\
        tabootacittackytaffytainttakentakertallytalontamertangotangytapertapirtardytarot\
        tastetastytattytaunttawnyteachtearyteaseteddyteethtempotenettenortensetenthtepee\
        tepidterratersetestythankthefttheirthemetherethesethetathickthiefthighthingthink\
        thirdthongthornthosethreethrewthrobthrowthrumthumbthumpthymetiaratibiatidaltiger\
        tighttildetimertimidtipsytitantithetitletoasttodaytoddytokentonaltongatonictooth\
        topaztopictorchtorsotorustotaltotemtouchtoughtoweltowertoxictoxintracetracktract\
        tradetrailtraintraittramptrashtrawltreadtreattrendtriadtrialtribetricetricktried\
        tripetritetrolltrooptropetrouttrovetrucetrucktruertrulytrumptrunktrusstrusttruth\
        trysttubaltubertuliptulletumortunicturbotutortwangtweaktweedtweettwicetwinetwirl\
        twisttwixttyingudderulcerultraumbrauncleuncutunderundidundueunfedunfitunifyunion\
        uniteunityunlitunmetunsetuntieuntilunwedunzipupperupseturbanurineusageusherusing\
        usualusurputileuttervaguevaletvalidvalorvaluevalvevapidvaporvaultvauntveganvenom\
        venuevergeverseversovervevicarvideovigilvigorvillavinylviolaviperviralvirusvisit\
        visorvistavitalvividvixenvocalvodkavoguevoicevoilavomitvotervouchvowelvyingwacky\
        waferwagerwagonwaistwaivewaltzwartywastewatchwaterwaverwaxenwearyweavewedgeweedy\
        weighweirdwelchwelshwenchwhackwhalewharfwheatwheelwhelpwherewhichwhiffwhilewhine\
        whinywhirlwhiskwhitewholewhoopwhosewidenwiderwidowwidthwieldwightwillywimpywince\
        winchwindywiserwispywitchwittywokenwomanwomenwoodywooerwoolywoozywordyworldworry\
        worseworstworthwouldwoundwovenwrackwrathwreakwreckwrestwringwristwritewrongwrote\
        wrungwrylyyachtyearnyeastyieldyoungyouthzebrazestyzonal");
    lemma_encoding_length(ANSWERS@);
}

} // verus!
